//! Where the holding slot lies, and what a swap starts with.

use fs_swap::path::{holding_slot, SLOT_NAME};
use fs_swap::protocol::{Action, SwapError};
use fs_swap::{swap, swap_nonatomic};

#[test]
fn slot_bears_the_fixed_name() {
    assert_eq!(SLOT_NAME, "tmp.fs_swap");
}

#[test]
fn slot_lies_beside_the_first_operand() {
    assert_eq!(holding_slot("left/file_a", "right/file_b"), Some("left/tmp.fs_swap".to_string()));
    assert_eq!(holding_slot("/srv/data/a", "/srv/b"), Some("/srv/data/tmp.fs_swap".to_string()));
}

#[test]
fn slot_of_a_bare_name_lies_in_the_working_directory() {
    assert_eq!(holding_slot("file_a", "right/file_b"), Some("tmp.fs_swap".to_string()));
}

#[test]
fn slot_lies_beside_the_second_operand_where_the_first_has_no_parent() {
    assert_eq!(holding_slot("/", "right/file_b"), Some("right/tmp.fs_swap".to_string()));
    assert_eq!(holding_slot("", "/file_b"), Some("/tmp.fs_swap".to_string()));
}

#[test]
fn no_slot_without_a_parent() {
    assert_eq!(holding_slot("/", ""), None);
    assert_eq!(holding_slot("", ""), None);
}

#[test]
fn slot_beside_a_directory_operand_ignores_a_trailing_separator() {
    assert_eq!(holding_slot("left/dir_a/", "right/dir_b"), Some("left/tmp.fs_swap".to_string()));
}

#[test]
fn staged_swap_starts_with_a_probe_of_the_slot() {
    let engine = swap_nonatomic::<i32>("left/file_a", "right/file_b").unwrap();
    assert_eq!(engine.slot(), Some("left/tmp.fs_swap"));
    assert!(!engine.recovering());
    assert_eq!(engine.action(), Action::Probe { path: "left/tmp.fs_swap".to_string() });
}

#[test]
fn staged_swap_without_a_parent_does_not_start() {
    match swap_nonatomic::<i32>("", "/") {
        Err(error) => assert_eq!(error, SwapError::NoParentDirectory),
        Ok(engine) => panic!("a swap began without a holding slot: {:?}", engine),
    }
}

#[test]
fn swap_starts_with_the_exchange() {
    let engine = swap::<i32>("left/file_a", "right/file_b");
    assert_eq!(engine.slot(), Some("left/tmp.fs_swap"));
    assert_eq!(
        engine.action(),
        Action::Exchange { a: "left/file_a".to_string(), b: "right/file_b".to_string() }
    );
}

#[test]
fn swap_without_a_parent_still_starts_with_the_exchange() {
    let engine = swap::<i32>("/", "");
    assert_eq!(engine.slot(), None);
    assert_eq!(engine.action(), Action::Exchange { a: "/".to_string(), b: "".to_string() });
}

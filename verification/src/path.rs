//! Where the holding slot of a swap lies.
//!
//! The slot is a fixed name inside the directory that holds the first
//! operand, or, where the first operand has no directory above it, inside the
//! directory that holds the second.

use vstd::prelude::*;

verus! {

/// The name that every holding slot bears inside its directory.
pub const SLOT_NAME: &'static str = "tmp.fs_swap";

/// What `std::path::Path::parent` gives for a path, as text: the path without
/// its last component, or `None` where the path ends in a root or is empty.
/// Which characters part the components is the platform's matter, fixed
/// when the library is built.
pub uninterp spec fn path_parent(path: Seq<char>) -> Option<Seq<char>>;

/// What `std::path::Path::join` gives for a directory and a name, as text.
pub uninterp spec fn path_join(base: Seq<char>, name: Seq<char>) -> Seq<char>;

/// The holding slot of the pair `a`, `b`: the fixed name joined to the parent
/// of `a`, or to the parent of `b` where `a` has none; `None` where neither
/// has a parent.
pub open spec fn slot_for(a: Seq<char>, b: Seq<char>) -> Option<Seq<char>> {
    match path_parent(a) {
        Some(dir) => Some(path_join(dir, SLOT_NAME@)),
        None => match path_parent(b) {
            Some(dir) => Some(path_join(dir, SLOT_NAME@)),
            None => None,
        },
    }
}

/// Calls `std::path::Path::parent` on `path`. Not proved: that the text
/// handed back is the one that `path_parent` names for this path, and that
/// `None` comes back exactly where `path_parent` is `None`.
#[verifier::external_body]
fn parent(path: &str) -> (r: Option<String>)
    ensures
        match r {
            Some(dir) => path_parent(path@) == Some(dir@),
            None => path_parent(path@) is None,
        },
{
    match std::path::Path::new(path).parent() {
        Some(dir) => Some(dir.to_string_lossy().into_owned()),
        None => None,
    }
}

/// Calls `std::path::Path::join` on `base` and `name`. Not proved: that the
/// text handed back is the one that `path_join` names for the two.
#[verifier::external_body]
fn join(base: &str, name: &str) -> (r: String)
    ensures
        r@ == path_join(base@, name@),
{
    std::path::Path::new(base).join(name).to_string_lossy().into_owned()
}

/// Finds the holding slot for the pair `a`, `b`.
pub fn holding_slot(a: &str, b: &str) -> (r: Option<String>)
    ensures
        match r {
            Some(slot) => slot_for(a@, b@) == Some(slot@),
            None => slot_for(a@, b@) is None,
        },
{
    let dir = match parent(a) {
        Some(dir) => Some(dir),
        None => parent(b),
    };
    match dir {
        Some(dir) => Some(join(dir.as_str(), SLOT_NAME)),
        None => None,
    }
}

} // verus!

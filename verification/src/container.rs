//! The container root: an absolute path that is set once and then stays.
//!
//! Identifiers of the scheme `container` name locations below this root. A
//! host hands it over once; later attempts to set it change nothing.
//!
//! The root is kept in a write-once cell of the crate `once_cell`. The
//! registry never hands the cell out and writes to it only through a unique
//! reference, so what the cell holds changes in `ContainerRegistry::set`
//! and nowhere else. A process that shares one registry among threads
//! guards it with a lock.

use crate::path::absolute::{is_valid_absolute, AbsolutePathBuf};
use crate::path::native::{NativePath, PathView};
use crate::path::syntax::PathStyle;
use once_cell::sync::OnceCell;
use vstd::prelude::*;
use vstd::slice::slice_to_vec;

verus! {

/// `once_cell::sync::OnceCell`, whose inside is not read here.
#[verifier::external_type_specification]
#[verifier::external_body]
#[verifier::reject_recursive_types(T)]
pub struct ExOnceCell<T>(OnceCell<T>);

/// What `cell` holds: nothing, or the bytes that were stored in it.
pub uninterp spec fn cell_content(cell: OnceCell<Vec<u8>>) -> Option<Seq<u8>>;

/// `once_cell::sync::OnceCell::new`: the new cell is empty.
#[verifier::external_body]
fn cell_new() -> (cell: OnceCell<Vec<u8>>)
    ensures
        cell_content(cell) is None,
{
    OnceCell::new()
}

/// `once_cell::sync::OnceCell::get`: a reference to what the cell holds, if
/// it holds anything.
#[verifier::external_body]
fn cell_get(cell: &OnceCell<Vec<u8>>) -> (value: Option<&Vec<u8>>)
    ensures
        match value {
            Some(v) => cell_content(*cell) == Some(v@),
            None => cell_content(*cell) is None,
        },
{
    cell.get()
}

/// `once_cell::sync::OnceCell::set`, called through a unique reference: an
/// empty cell takes the value and the call reports `true`; a full cell
/// keeps what it holds and the call reports `false`. The call does not
/// panic.
#[verifier::external_body]
fn cell_set(cell: &mut OnceCell<Vec<u8>>, value: Vec<u8>) -> (stored: bool)
    ensures
        stored == (cell_content(*old(cell)) is None),
        cell_content(*final(cell)) == if stored {
            Some(value@)
        } else {
            cell_content(*old(cell))
        },
    no_unwind
{
    cell.set(value).is_ok()
}

/// The root after an attempt to set it to `root`: the first root stays.
pub open spec fn after_set(current: Option<PathView>, root: PathView) -> Option<PathView> {
    match current {
        Some(first) => Some(first),
        None => Some(root),
    }
}

/// The place where the container root is kept.
pub struct ContainerRegistry {
    style: PathStyle,
    cell: OnceCell<Vec<u8>>,
}

impl ContainerRegistry {
    /// The root that is set, if one is.
    pub closed spec fn root(&self) -> Option<PathView> {
        match cell_content(self.cell) {
            Some(bytes) => Some(PathView { style: self.style, bytes }),
            None => None,
        }
    }

    /// What holds of every registry: the root, if set, is an absolute path
    /// without `.` and `..`.
    pub open spec fn wf(&self) -> bool {
        self.root() matches Some(r) ==> is_valid_absolute(r.style, r.bytes)
    }

    #[verifier::type_invariant]
    spec fn holds_always(&self) -> bool {
        self.wf()
    }

    /// A registry with no root set.
    pub fn new() -> (registry: ContainerRegistry)
        ensures
            registry.root() is None,
    {
        ContainerRegistry { style: PathStyle::Posix, cell: cell_new() }
    }

    /// Sets the root to `root` if none is set yet, and reports whether it
    /// did. A root that is set stays as it is.
    pub fn set(&mut self, root: AbsolutePathBuf) -> (stored: bool)
        ensures
            stored == (old(self).root() is None),
            final(self).root() == after_set(
                old(self).root(),
                root@,
            ),
    {
        proof {
            use_type_invariant(&*self);
        }
        let path = root.to_path_buf();
        if cell_get(&self.cell).is_some() {
            return false;
        }
        self.style = path.style;
        let stored = cell_set(&mut self.cell, path.bytes);
        stored
    }

    /// The root, if one is set.
    pub fn get(&self) -> (root: Option<AbsolutePathBuf>)
        ensures
            match root {
                Some(path) => self.root() == Some(path@) && path.wf(),
                None => self.root() is None,
            },
    {
        proof {
            use_type_invariant(self);
        }
        match cell_get(&self.cell) {
            Some(bytes) => Some(
                AbsolutePathBuf::from_valid(
                    NativePath::new(self.style, slice_to_vec(bytes.as_slice())),
                ),
            ),
            None => None,
        }
    }
}

/// Once a root is set, setting another changes nothing: after two attempts
/// the root is what it was after the first.
pub proof fn lemma_first_root_stays(current: Option<PathView>, first: PathView, second: PathView)
    ensures
        after_set(current, first) is Some,
        after_set(after_set(current, first), second) == after_set(current, first),
        current is None ==> after_set(after_set(current, first), second) == Some(first),
{
}

} // verus!

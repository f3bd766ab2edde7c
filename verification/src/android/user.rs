//! The directories of an application on Android, and the setting of the
//! container root.

pub mod iri;

use crate::container::{after_set, ContainerRegistry};
use crate::iri::error::{Error, ErrorView};
use crate::iri::ext::container_path;
use crate::path::absolute::{validation, AbsolutePathBuf, TryFromError};
use crate::path::native::{joined_view, posix_view, NativePath, PathView};
use crate::path::syntax::PathStyle;
use vstd::prelude::*;
use vstd::slice::slice_to_vec;
use vstd::string::StringSliceAdditionalSpecFns;

verus! {

/// The cache directory of the application `prefix`: `prefix` in `cache`
/// below the container root. Without a root there is none.
pub fn app_cache_dir(registry: &ContainerRegistry, prefix: &[u8]) -> (res: Result<
    NativePath,
    Error,
>)
    ensures
        match res {
            Ok(dir) => registry.root() matches Some(root) && dir@ == joined_view(
                joined_view(root, "cache".spec_bytes()),
                prefix@,
            ),
            Err(e) => registry.root() is None && e@ == ErrorView::UnresolvableContainer,
        },
{
    match container_path(registry) {
        Ok(root) => Ok(root.to_path().join_str("cache").join(prefix)),
        Err(e) => Err(e),
    }
}

/// The temporary directory of the application `prefix`: `prefix` below the
/// temporary directory `temp_dir` of the system.
pub fn app_temporary_dir(temp_dir: &NativePath, prefix: &[u8]) -> (dir: NativePath)
    ensures
        dir@ == joined_view(temp_dir@, prefix@),
{
    temp_dir.join(prefix)
}

/// What an attempt to set the container root came to.
#[derive(Clone, Copy, Debug, PartialEq, Eq, Structural)]
pub enum SetOutcome {
    /// The root was set.
    Stored,
    /// A root was set before, and stays.
    AlreadySet,
    /// The path is no absolute path, and nothing was changed.
    Invalid(TryFromError),
    /// No path was handed over, or an empty one, and nothing was changed.
    Missing,
}

/// What setting the root to `path` comes to where the root is `current`.
pub open spec fn set_outcome(current: Option<PathView>, path: PathView) -> SetOutcome {
    match validation(path.style, path.bytes) {
        Err(e) => SetOutcome::Invalid(e),
        Ok(()) => if current is None {
            SetOutcome::Stored
        } else {
            SetOutcome::AlreadySet
        },
    }
}

/// The root after an attempt to set it to `path` where it is `current`.
pub open spec fn root_after(current: Option<PathView>, path: PathView) -> Option<PathView> {
    match validation(path.style, path.bytes) {
        Err(_) => current,
        Ok(()) => after_set(current, path),
    }
}

/// Sets the container root to `path`, if none is set and `path` is an
/// absolute path without `.` and `..`.
pub fn set_container_path(registry: &mut ContainerRegistry, path: NativePath) -> (outcome:
    SetOutcome)
    ensures
        outcome == set_outcome(old(registry).root(), path@),
        final(registry).root() == root_after(old(registry).root(), path@),
{
    match AbsolutePathBuf::try_from(path) {
        Ok(root) => {
            if registry.set(root) {
                SetOutcome::Stored
            } else {
                SetOutcome::AlreadySet
            }
        },
        Err(e) => SetOutcome::Invalid(e),
    }
}

/// Sets the container root to the POSIX path that `raw` spells, as a host
/// hands it over: `None` stands for a null pointer. A missing or empty
/// path changes nothing.
pub fn set_container_path_bytes(registry: &mut ContainerRegistry, raw: Option<&[u8]>) -> (outcome:
    SetOutcome)
    ensures
        match raw {
            Some(bytes) if bytes@.len() > 0 => {
                &&& outcome == set_outcome(old(registry).root(), posix_view(bytes@))
                &&& final(registry).root() == root_after(
                    old(registry).root(),
                    posix_view(bytes@),
                )
            },
            _ => outcome == SetOutcome::Missing && final(registry).root() == old(
                registry,
            ).root(),
        },
{
    match raw {
        Some(bytes) => {
            if bytes.len() == 0 {
                SetOutcome::Missing
            } else {
                set_container_path(registry, NativePath::new(PathStyle::Posix, slice_to_vec(bytes)))
            }
        },
        None => SetOutcome::Missing,
    }
}

} // verus!

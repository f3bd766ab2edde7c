//! The directories of iOS: those of macOS, named below the container of
//! the application.

pub mod user;

use crate::container::ContainerRegistry;
use crate::iri::error::ErrorView;
use crate::iri::ext::resolved_path;
use crate::iri::ResourceIdentifier;
use crate::path::native::{NativePath, PathView};
use crate::path::syntax::PathStyle;
use crate::{resolve_error_of, resolve_path};
use crate::ResolveError;
use vstd::prelude::*;

verus! {

/// The path that `iri` names on iOS, where the schemes `file` and
/// `container` are supported and `container` holds the home directory of
/// the application as its root.
pub fn resolve(iri: &ResourceIdentifier, container: &ContainerRegistry) -> (res: Result<
    NativePath,
    ResolveError,
>)
    ensures
        match res {
            Ok(path) => resolved_path(PathStyle::Posix, Some(container.root()), iri@) == Ok::<
                PathView,
                ErrorView,
            >(path@),
            Err(e) => resolved_path(PathStyle::Posix, Some(container.root()), iri@) matches Err(
                inner,
            ) && resolve_error_of(inner, e),
        },
{
    resolve_path(iri, PathStyle::Posix, Some(container))
}

} // verus!

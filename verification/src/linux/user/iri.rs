//! The directories of an application on Linux, as identifiers.

use crate::iri::error::ErrorView;
use crate::iri::ext::resolved_path;
use crate::iri::{IdentifierView, ResourceIdentifier};
use crate::linux::user::app_directories;
use crate::path::native::{NativePath, PathView};
use crate::path::syntax::PathStyle;
use crate::xdg::Environment;
use crate::{directory_identifier, directory_iri, resolve_error_of, resolve_path};
use crate::Error;
use crate::ResolveError;
use vstd::prelude::*;

verus! {

/// The identifier of the cache directory of the application `prefix`.
pub fn app_cache_dir(env: &Environment, prefix: &[u8]) -> (res: Result<ResourceIdentifier, Error>)
    ensures
        match res {
            Ok(iri) => app_directories(*env, prefix@) matches Some(dirs) && directory_identifier(
                dirs.cache_dir,
            ) == Ok::<IdentifierView, ErrorView>(iri@),
            Err(e) => match app_directories(*env, prefix@) {
                Some(dirs) => e matches Error::IriConversionFailed(inner) && directory_identifier(
                    dirs.cache_dir,
                ) == Err::<IdentifierView, ErrorView>(inner@),
                None => e is NoHomeDirectory,
            },
        },
{
    match super::app_cache_dir(env, prefix) {
        Ok(dir) => directory_iri(dir),
        Err(e) => Err(e),
    }
}

/// The identifier of the temporary directory of the application `prefix`.
pub fn app_temporary_dir(env: &Environment, prefix: &[u8]) -> (res: Result<
    ResourceIdentifier,
    Error,
>)
    ensures
        match res {
            Ok(iri) => app_directories(*env, prefix@) matches Some(dirs) && directory_identifier(
                dirs.temporary_dir,
            ) == Ok::<IdentifierView, ErrorView>(iri@),
            Err(e) => match app_directories(*env, prefix@) {
                Some(dirs) => e matches Error::IriConversionFailed(inner) && directory_identifier(
                    dirs.temporary_dir,
                ) == Err::<IdentifierView, ErrorView>(inner@),
                None => e is NoHomeDirectory,
            },
        },
{
    match super::app_temporary_dir(env, prefix) {
        Ok(dir) => directory_iri(dir),
        Err(e) => Err(e),
    }
}

/// The path that `iri` names on Linux, where only the scheme `file` is
/// supported.
pub fn resolve(iri: &ResourceIdentifier) -> (res: Result<NativePath, ResolveError>)
    ensures
        match res {
            Ok(path) => resolved_path(PathStyle::Posix, None, iri@) == Ok::<PathView, ErrorView>(
                path@,
            ),
            Err(e) => resolved_path(PathStyle::Posix, None, iri@) matches Err(inner)
                && resolve_error_of(inner, e),
        },
{
    resolve_path(iri, PathStyle::Posix, None)
}

} // verus!

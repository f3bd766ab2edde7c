//! The directories of an application of a user of Windows, as
//! identifiers.

use crate::iri::error::ErrorView;
use crate::iri::{IdentifierView, ResourceIdentifier};
use crate::path::native::{optional_view, NativePath};
use crate::windows::system::is_not_found;
use crate::windows::user::{app_directories, home_name};
use crate::AppDirsView;
use crate::Error;
use crate::{directory_identifier, directory_iri};
use vstd::prelude::*;

verus! {

/// The directories of the application `prefix` for the user with the
/// profile folder `folder`.
pub open spec fn directories(folder: Option<NativePath>, prefix: Seq<u8>) -> Option<AppDirsView> {
    app_directories(optional_view(folder), prefix)
}

/// The identifier of the cache directory of the application `prefix`.
pub fn app_cache_dir(profile: &Option<NativePath>, prefix: &[u8]) -> (res: Result<
    ResourceIdentifier,
    Error,
>)
    ensures
        match res {
            Ok(iri) => directories(*profile, prefix@) matches Some(dirs) && directory_identifier(
                dirs.cache_dir,
            ) == Ok::<IdentifierView, ErrorView>(iri@),
            Err(e) => match directories(*profile, prefix@) {
                Some(dirs) => e matches Error::IriConversionFailed(inner)
                    && directory_identifier(dirs.cache_dir) == Err::<IdentifierView, ErrorView>(
                    inner@,
                ),
                None => is_not_found(e, home_name()),
            },
        },
{
    match super::app_cache_dir(profile, prefix) {
        Ok(dir) => directory_iri(dir),
        Err(e) => Err(e),
    }
}

/// The identifier of the temporary directory of the application `prefix`.
pub fn app_temporary_dir(profile: &Option<NativePath>, prefix: &[u8]) -> (res: Result<
    ResourceIdentifier,
    Error,
>)
    ensures
        match res {
            Ok(iri) => directories(*profile, prefix@) matches Some(dirs) && directory_identifier(
                dirs.temporary_dir,
            ) == Ok::<IdentifierView, ErrorView>(iri@),
            Err(e) => match directories(*profile, prefix@) {
                Some(dirs) => e matches Error::IriConversionFailed(inner)
                    && directory_identifier(dirs.temporary_dir) == Err::<IdentifierView, ErrorView>(
                    inner@,
                ),
                None => is_not_found(e, home_name()),
            },
        },
{
    match super::app_temporary_dir(profile, prefix) {
        Ok(dir) => directory_iri(dir),
        Err(e) => Err(e),
    }
}

} // verus!

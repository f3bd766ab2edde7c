//! The system-wide directories of an application on Windows, as
//! identifiers.

use crate::iri::error::ErrorView;
use crate::iri::{IdentifierView, ResourceIdentifier};
use crate::path::native::{optional_view, NativePath};
use crate::windows::system::{app_directories, is_not_found, program_data_name};
use crate::AppDirsView;
use crate::Error;
use crate::{directory_identifier, directory_iri};
use vstd::prelude::*;

verus! {

/// The directories of the application `prefix` below `folder`.
pub open spec fn directories(folder: Option<NativePath>, prefix: Seq<u8>) -> Option<AppDirsView> {
    app_directories(optional_view(folder), prefix)
}

/// The identifier of the temporary directory of the application `prefix`.
pub fn app_temporary_dir(program_data: &Option<NativePath>, prefix: &[u8]) -> (res: Result<
    ResourceIdentifier,
    Error,
>)
    ensures
        match res {
            Ok(iri) => directories(*program_data, prefix@) matches Some(dirs) && directory_identifier(
                dirs.temporary_dir,
            ) == Ok::<IdentifierView, ErrorView>(iri@),
            Err(e) => match directories(*program_data, prefix@) {
                Some(dirs) => e matches Error::IriConversionFailed(inner)
                    && directory_identifier(dirs.temporary_dir) == Err::<IdentifierView, ErrorView>(
                    inner@,
                ),
                None => is_not_found(e, program_data_name()),
            },
        },
{
    match super::app_temporary_dir(program_data, prefix) {
        Ok(dir) => directory_iri(dir),
        Err(e) => Err(e),
    }
}

/// The identifier of the cache directory of the application `prefix`.
pub fn app_cache_dir(program_data: &Option<NativePath>, prefix: &[u8]) -> (res: Result<
    ResourceIdentifier,
    Error,
>)
    ensures
        match res {
            Ok(iri) => directories(*program_data, prefix@) matches Some(dirs) && directory_identifier(
                dirs.cache_dir,
            ) == Ok::<IdentifierView, ErrorView>(iri@),
            Err(e) => match directories(*program_data, prefix@) {
                Some(dirs) => e matches Error::IriConversionFailed(inner)
                    && directory_identifier(dirs.cache_dir) == Err::<IdentifierView, ErrorView>(
                    inner@,
                ),
                None => is_not_found(e, program_data_name()),
            },
        },
{
    match super::app_cache_dir(program_data, prefix) {
        Ok(dir) => directory_iri(dir),
        Err(e) => Err(e),
    }
}

} // verus!

//! The directories of an application of a user of macOS, as identifiers.

use crate::iri::error::ErrorView;
use crate::iri::{IdentifierView, ResourceIdentifier};
use crate::macos::user::{app_directories, Dirs};
use crate::{directory_identifier, directory_iri};
use crate::Error;
use vstd::prelude::*;

verus! {

/// The identifier of the cache directory of the application `prefix`.
pub fn app_cache_dir(dirs: &Dirs, prefix: &[u8]) -> (res: Result<ResourceIdentifier, Error>)
    ensures
        match res {
            Ok(iri) => directory_identifier(app_directories(dirs@, prefix@).cache_dir) == Ok::<
                IdentifierView,
                ErrorView,
            >(iri@),
            Err(e) => e matches Error::IriConversionFailed(inner) && directory_identifier(
                app_directories(dirs@, prefix@).cache_dir,
            ) == Err::<IdentifierView, ErrorView>(inner@),
        },
{
    directory_iri(super::app_cache_dir(dirs, prefix))
}

/// The identifier of the temporary directory of the application `prefix`.
pub fn app_temporary_dir(dirs: &Dirs, prefix: &[u8]) -> (res: Result<ResourceIdentifier, Error>)
    ensures
        match res {
            Ok(iri) => directory_identifier(app_directories(dirs@, prefix@).temporary_dir)
                == Ok::<IdentifierView, ErrorView>(iri@),
            Err(e) => e matches Error::IriConversionFailed(inner) && directory_identifier(
                app_directories(dirs@, prefix@).temporary_dir,
            ) == Err::<IdentifierView, ErrorView>(inner@),
        },
{
    directory_iri(super::app_temporary_dir(dirs, prefix))
}

} // verus!

//! The system-wide directories of an application on macOS, as identifiers.

use crate::iri::error::ErrorView;
use crate::iri::{IdentifierView, ResourceIdentifier};
use crate::macos::Domain;
use crate::path::native::joined_view;
use crate::{directory_identifier, directory_iri};
use crate::Error;
use vstd::prelude::*;
use vstd::string::StringSliceAdditionalSpecFns;

verus! {

/// The identifier of the temporary directory of the application `prefix`.
pub fn app_temporary_dir(domain: &Domain, prefix: &[u8]) -> (res: Result<
    ResourceIdentifier,
    Error,
>)
    ensures
        match res {
            Ok(iri) => directory_identifier(
                joined_view(joined_view(domain.caches@, prefix@), "tmp".spec_bytes()),
            ) == Ok::<IdentifierView, ErrorView>(iri@),
            Err(e) => e matches Error::IriConversionFailed(inner) && directory_identifier(
                joined_view(joined_view(domain.caches@, prefix@), "tmp".spec_bytes()),
            ) == Err::<IdentifierView, ErrorView>(inner@),
        },
{
    directory_iri(super::app_temporary_dir(domain, prefix))
}

/// The identifier of the cache directory of the application `prefix`.
pub fn app_cache_dir(domain: &Domain, prefix: &[u8]) -> (res: Result<ResourceIdentifier, Error>)
    ensures
        match res {
            Ok(iri) => directory_identifier(joined_view(domain.caches@, prefix@)) == Ok::<
                IdentifierView,
                ErrorView,
            >(iri@),
            Err(e) => e matches Error::IriConversionFailed(inner) && directory_identifier(
                joined_view(domain.caches@, prefix@),
            ) == Err::<IdentifierView, ErrorView>(inner@),
        },
{
    directory_iri(super::app_cache_dir(domain, prefix))
}

} // verus!

//! The directories of an application on Android, as identifiers.

use crate::iri::builder::{
    container_directory, container_directory_iri, push_split, split_at_slash,
};
use crate::iri::error::ErrorView;
use crate::iri::text::reads_back;
use crate::iri::{byte_views, IdentifierView, ResourceIdentifier};
use crate::path::native::{joined_view, NativePath};
use crate::{directory_identifier, directory_iri};
use crate::Error;
use vstd::prelude::*;
use vstd::slice::slice_to_vec;
use vstd::string::StringSliceAdditionalSpecFns;

verus! {

/// The segments of the cache directory of the application `prefix`:
/// `cache`, and the pieces of `prefix` between its `/`.
pub open spec fn cache_segments(prefix: Seq<u8>) -> Seq<Seq<u8>> {
    seq!["cache".spec_bytes()] + split_at_slash(prefix)
}

/// The identifier of the cache directory of the application `prefix`, in
/// the scheme `container`. A prefix with a piece that is no segment of an
/// identifier has none.
pub fn app_cache_dir(prefix: &[u8]) -> (res: Result<ResourceIdentifier, Error>)
    ensures
        match res {
            Ok(iri) => iri@ == container_directory(cache_segments(prefix@)) && reads_back(iri@),
            Err(e) => e matches Error::IriConversionFailed(inner) && inner@
                == ErrorView::InvalidIri && !reads_back(
                container_directory(cache_segments(prefix@)),
            ),
        },
{
    let mut segments: Vec<Vec<u8>> = Vec::new();
    segments.push(slice_to_vec("cache".as_bytes()));
    assert(byte_views(segments@) =~= seq!["cache".spec_bytes()]);
    push_split(&mut segments, prefix);
    match container_directory_iri(segments) {
        Ok(iri) => Ok(iri),
        Err(e) => Err(Error::IriConversionFailed(e)),
    }
}

/// The identifier of the temporary directory of the application `prefix`,
/// in the scheme `file`.
pub fn app_temporary_dir(temp_dir: &NativePath, prefix: &[u8]) -> (res: Result<
    ResourceIdentifier,
    Error,
>)
    ensures
        match res {
            Ok(iri) => directory_identifier(joined_view(temp_dir@, prefix@)) == Ok::<
                IdentifierView,
                ErrorView,
            >(iri@),
            Err(e) => e matches Error::IriConversionFailed(inner) && directory_identifier(
                joined_view(temp_dir@, prefix@),
            ) == Err::<IdentifierView, ErrorView>(inner@),
        },
{
    directory_iri(super::app_temporary_dir(temp_dir, prefix))
}

} // verus!

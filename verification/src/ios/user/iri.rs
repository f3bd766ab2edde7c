//! The directories of an application on iOS, as identifiers of the scheme
//! `container`.

use crate::iri::builder::{
    container_directory, container_directory_iri, push_split, split_at_slash,
};
use crate::iri::error::ErrorView;
use crate::iri::text::reads_back;
use crate::iri::{
    byte_views, container_scheme, container_scheme_bytes, IdentifierView, ResourceIdentifier,
};
use crate::Error;
use vstd::prelude::*;
use vstd::slice::slice_to_vec;
use vstd::string::StringSliceAdditionalSpecFns;

verus! {

/// The identifier of the home directory: the container root itself,
/// `container:/`.
pub fn home_dir() -> (iri: ResourceIdentifier)
    ensures
        iri@ == (IdentifierView {
            scheme: container_scheme(),
            authority: None,
            segments: Seq::empty(),
            open: false,
        }),
{
    let iri = ResourceIdentifier {
        scheme: container_scheme_bytes(),
        authority: None,
        segments: Vec::new(),
        open: false,
    };
    assert(byte_views(iri.segments@) =~= Seq::<Seq<u8>>::empty());
    iri
}

/// The segments of a directory in the library: `Library`, the pieces of
/// `name` between its `/`, and those of `prefix`.
pub open spec fn library_segments(name: Seq<u8>, prefix: Seq<u8>) -> Seq<Seq<u8>> {
    seq!["Library".spec_bytes()] + split_at_slash(name) + split_at_slash(prefix)
}

/// The identifier of the directory of the application `prefix` in the
/// directory `name` of the library. A name or prefix with a piece that is
/// no segment of an identifier has none.
pub fn library_dir(name: &str, prefix: &[u8]) -> (res: Result<ResourceIdentifier, Error>)
    ensures
        match res {
            Ok(iri) => iri@ == container_directory(library_segments(name.spec_bytes(), prefix@))
                && reads_back(iri@),
            Err(e) => e matches Error::IriConversionFailed(inner) && inner@
                == ErrorView::InvalidIri && !reads_back(
                container_directory(library_segments(name.spec_bytes(), prefix@)),
            ),
        },
{
    let mut segments: Vec<Vec<u8>> = Vec::new();
    segments.push(slice_to_vec("Library".as_bytes()));
    assert(byte_views(segments@) =~= seq!["Library".spec_bytes()]);
    push_split(&mut segments, name.as_bytes());
    push_split(&mut segments, prefix);
    match container_directory_iri(segments) {
        Ok(iri) => Ok(iri),
        Err(e) => Err(Error::IriConversionFailed(e)),
    }
}

/// The identifier of the config directory of the application `prefix`:
/// its directory in `Library/Preferences`.
pub fn app_config_dir(prefix: &[u8]) -> (res: Result<ResourceIdentifier, Error>)
    ensures
        match res {
            Ok(iri) => iri@ == container_directory(library_segments("Preferences".spec_bytes(), prefix@))
                && reads_back(iri@),
            Err(e) => e matches Error::IriConversionFailed(inner) && inner@
                == ErrorView::InvalidIri && !reads_back(
                container_directory(library_segments("Preferences".spec_bytes(), prefix@)),
            ),
        },
{
    library_dir("Preferences", prefix)
}

/// The identifier of the cache directory of the application `prefix`: its
/// directory in `Library/Caches`.
pub fn app_cache_dir(prefix: &[u8]) -> (res: Result<ResourceIdentifier, Error>)
    ensures
        match res {
            Ok(iri) => iri@ == container_directory(library_segments("Caches".spec_bytes(), prefix@))
                && reads_back(iri@),
            Err(e) => e matches Error::IriConversionFailed(inner) && inner@
                == ErrorView::InvalidIri && !reads_back(
                container_directory(library_segments("Caches".spec_bytes(), prefix@)),
            ),
        },
{
    library_dir("Caches", prefix)
}

/// The identifier of the log directory of the application `prefix`: its
/// directory in `Library/Logs`.
pub fn app_log_dir(prefix: &[u8]) -> (res: Result<ResourceIdentifier, Error>)
    ensures
        match res {
            Ok(iri) => iri@ == container_directory(library_segments("Logs".spec_bytes(), prefix@))
                && reads_back(iri@),
            Err(e) => e matches Error::IriConversionFailed(inner) && inner@
                == ErrorView::InvalidIri && !reads_back(
                container_directory(library_segments("Logs".spec_bytes(), prefix@)),
            ),
        },
{
    library_dir("Logs", prefix)
}

/// `iri` with the segment `tmp` behind its segments, and open.
pub open spec fn with_tmp(iri: IdentifierView) -> IdentifierView {
    IdentifierView {
        scheme: iri.scheme,
        authority: iri.authority,
        segments: iri.segments.push("tmp".spec_bytes()),
        open: true,
    }
}

/// The identifier of the temporary directory of the application `prefix`:
/// `tmp` in its cache directory.
pub fn app_temporary_dir(prefix: &[u8]) -> (res: Result<ResourceIdentifier, Error>)
    ensures
        match res {
            Ok(iri) => iri@ == with_tmp(
                container_directory(library_segments("Caches".spec_bytes(), prefix@)),
            ) && reads_back(
                container_directory(library_segments("Caches".spec_bytes(), prefix@)),
            ),
            Err(e) => e matches Error::IriConversionFailed(inner) && inner@
                == ErrorView::InvalidIri && !reads_back(
                container_directory(library_segments("Caches".spec_bytes(), prefix@)),
            ),
        },
{
    match app_cache_dir(prefix) {
        Ok(cache) => {
            let ghost before = byte_views(cache.segments@);
            let mut iri = cache;
            iri.segments.push(slice_to_vec("tmp".as_bytes()));
            iri.open = true;
            assert(byte_views(iri.segments@) =~= before.push("tmp".spec_bytes()));
            Ok(iri)
        },
        Err(e) => Err(e),
    }
}

} // verus!

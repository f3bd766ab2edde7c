//! Per-application directories and portable identifiers for them.
//!
//! The crate computes the data, config, cache, log and temporary directories
//! of an application from plain values that the caller hands in, and
//! converts absolute native paths to scheme-qualified, percent-encoded
//! identifiers and back. It reads no environment and touches no disk.

pub mod android;
pub mod bytes;
pub mod container;
pub mod ios;
pub mod iri;
pub mod linux;
pub mod macos;
pub mod path;
pub mod percent;
pub mod windows;
pub mod xdg;

pub use crate::iri::encode::file_path;
pub use crate::iri::error::Error as IriError;

use crate::container::ContainerRegistry;
use crate::iri::encode::file_identifier;
use crate::iri::error::{ErrorView, SupportedSchemes};
use crate::iri::ext::{registry_view, resolve, resolved_path};
use crate::iri::{IdentifierView, ResourceIdentifier};
use crate::path::absolute::{validation, AbsolutePathBuf, TryFromError};
use crate::path::native::{path_views, NativePath, PathView};
use crate::path::syntax::PathStyle;
use vstd::prelude::*;

verus! {

/// A failure to find or make the directories of an application.
#[derive(Clone, Debug)]
pub enum Error {
    /// The user has no home directory.
    NoHomeDirectory,
    /// The named system folder is not known.
    NotFound(&'static str),
    /// The directory could not be created.
    CreateDirectoryFailed(NativePath),
    /// A directory has no identifier.
    IriConversionFailed(IriError),
}

/// A failure to resolve an identifier.
#[derive(Clone, Debug)]
pub enum ResolveError {
    /// The scheme, given first, is none of those that the caller supports.
    InvalidScheme(Vec<u8>, SupportedSchemes),
    /// The identifier has no segments.
    EmptyIri,
    /// The segments spell no absolute path.
    ConversionFailed(IriError),
    /// The directories that the identifier refers to are not known.
    Error(Error),
}

/// The failure of a conversion as a failure to resolve: a refused scheme
/// and an empty identifier keep their kind, every other failure is a failed
/// conversion.
pub open spec fn resolve_error_of(e: ErrorView, out: ResolveError) -> bool {
    match e {
        ErrorView::InvalidScheme(got, supported) => out matches ResolveError::InvalidScheme(g, s)
            && g@ == got && s == supported,
        ErrorView::EmptyIri => out is EmptyIri,
        _ => out matches ResolveError::ConversionFailed(inner) && inner@ == e,
    }
}

impl ResolveError {
    /// The failure `e` of a conversion as a failure to resolve.
    pub fn from_iri_error(e: IriError) -> (out: ResolveError)
        ensures
            resolve_error_of(e@, out),
    {
        match e {
            IriError::InvalidScheme(got, supported) => ResolveError::InvalidScheme(got, supported),
            IriError::EmptyIri => ResolveError::EmptyIri,
            other => ResolveError::ConversionFailed(other),
        }
    }
}

impl Error {
    /// The failure of a validation as a failed conversion of a directory.
    pub fn from_validation(e: TryFromError) -> (out: Error)
        ensures
            out matches Error::IriConversionFailed(inner) && inner@ == match e {
                TryFromError::NotAbsolute => ErrorView::NotAbsolute,
                TryFromError::ContainsRelComponents => ErrorView::InvalidComponent,
            },
    {
        match e {
            TryFromError::NotAbsolute => Error::IriConversionFailed(IriError::NotAbsolute),
            TryFromError::ContainsRelComponents => Error::IriConversionFailed(
                IriError::InvalidComponent,
            ),
        }
    }
}

/// The `file` identifier of the directory `dir`, or why it has none: a
/// relative path is refused first, then one with `.` or `..`, then a device
/// namespace.
pub open spec fn directory_identifier(dir: PathView) -> Result<IdentifierView, ErrorView> {
    match validation(dir.style, dir.bytes) {
        Err(TryFromError::NotAbsolute) => Err(ErrorView::NotAbsolute),
        Err(TryFromError::ContainsRelComponents) => Err(ErrorView::InvalidComponent),
        Ok(()) => file_identifier(dir.style, dir.bytes),
    }
}

/// The `file` identifier of the directory `dir`.
pub fn directory_iri(dir: NativePath) -> (res: Result<ResourceIdentifier, Error>)
    ensures
        match res {
            Ok(iri) => directory_identifier(dir@) == Ok::<IdentifierView, ErrorView>(iri@),
            Err(e) => e matches Error::IriConversionFailed(inner) && directory_identifier(dir@)
                == Err::<IdentifierView, ErrorView>(inner@),
        },
{
    let absolute = match AbsolutePathBuf::try_from(dir) {
        Ok(absolute) => absolute,
        Err(e) => {
            return Err(Error::from_validation(e));
        },
    };
    match absolute.to_file_iri() {
        Ok(iri) => Ok(iri),
        Err(e) => Err(Error::IriConversionFailed(e)),
    }
}

/// The native path that `iri` names, for a caller that reports failures to
/// resolve. `container` is `None` where only the scheme `file` is
/// supported.
pub fn resolve_path(
    iri: &ResourceIdentifier,
    style: PathStyle,
    container: Option<&ContainerRegistry>,
) -> (res: Result<NativePath, ResolveError>)
    ensures
        match res {
            Ok(path) => resolved_path(style, registry_view(container), iri@) == Ok::<
                PathView,
                ErrorView,
            >(path@),
            Err(e) => resolved_path(style, registry_view(container), iri@) matches Err(inner)
                && resolve_error_of(inner, e),
        },
{
    match resolve(iri, style, container) {
        Ok(path) => Ok(path.to_path_buf()),
        Err(e) => Err(ResolveError::from_iri_error(e)),
    }
}

/// The directories of one user.
pub trait UserDirs: Sized {
    /// The home directory, as contracts speak of it.
    spec fn spec_home_dir(&self) -> NativePath;

    /// The data directory, as contracts speak of it.
    spec fn spec_data_dir(&self) -> NativePath;

    /// The cache directory, as contracts speak of it.
    spec fn spec_cache_dir(&self) -> NativePath;

    /// The home directory.
    fn home_dir(&self) -> (dir: &NativePath)
        ensures
            *dir == self.spec_home_dir(),
    ;

    /// The directory for the data of applications.
    fn data_dir(&self) -> (dir: &NativePath)
        ensures
            *dir == self.spec_data_dir(),
    ;

    /// The directory for the caches of applications.
    fn cache_dir(&self) -> (dir: &NativePath)
        ensures
            *dir == self.spec_cache_dir(),
    ;
}

/// The directories of one application.
pub trait AppDirs: Sized {
    /// The data directory, as contracts speak of it.
    spec fn spec_data_dir(&self) -> NativePath;

    /// The config directory, as contracts speak of it.
    spec fn spec_config_dir(&self) -> NativePath;

    /// The cache directory, as contracts speak of it.
    spec fn spec_cache_dir(&self) -> NativePath;

    /// The log directory, as contracts speak of it.
    spec fn spec_log_dir(&self) -> NativePath;

    /// The temporary directory, as contracts speak of it.
    spec fn spec_temporary_dir(&self) -> NativePath;

    /// The directory for data.
    fn data_dir(&self) -> (dir: &NativePath)
        ensures
            *dir == self.spec_data_dir(),
    ;

    /// The directory for configuration.
    fn config_dir(&self) -> (dir: &NativePath)
        ensures
            *dir == self.spec_config_dir(),
    ;

    /// The directory for caches.
    fn cache_dir(&self) -> (dir: &NativePath)
        ensures
            *dir == self.spec_cache_dir(),
    ;

    /// The directory for logs.
    fn log_dir(&self) -> (dir: &NativePath)
        ensures
            *dir == self.spec_log_dir(),
    ;

    /// The directory for temporary files.
    fn temporary_dir(&self) -> (dir: &NativePath)
        ensures
            *dir == self.spec_temporary_dir(),
    ;
}

/// The directories of one application, as contracts speak of it.
pub ghost struct AppDirsView {
    pub data_dir: PathView,
    pub config_dir: PathView,
    pub cache_dir: PathView,
    pub log_dir: PathView,
    pub temporary_dir: PathView,
}

/// The five directories of `dirs`.
pub open spec fn app_dirs_view<D: AppDirs>(dirs: D) -> AppDirsView {
    AppDirsView {
        data_dir: dirs.spec_data_dir()@,
        config_dir: dirs.spec_config_dir()@,
        cache_dir: dirs.spec_cache_dir()@,
        log_dir: dirs.spec_log_dir()@,
        temporary_dir: dirs.spec_temporary_dir()@,
    }
}

/// The directories of an application in the order in which they are to be
/// created: data, config, cache, temporary, log.
pub fn creation_order<D: AppDirs>(dirs: &D) -> (order: Vec<NativePath>)
    ensures
        path_views(order@) == seq![
            dirs.spec_data_dir()@,
            dirs.spec_config_dir()@,
            dirs.spec_cache_dir()@,
            dirs.spec_temporary_dir()@,
            dirs.spec_log_dir()@,
        ],
{
    let mut order: Vec<NativePath> = Vec::new();
    order.push(dirs.data_dir().clone());
    order.push(dirs.config_dir().clone());
    order.push(dirs.cache_dir().clone());
    order.push(dirs.temporary_dir().clone());
    order.push(dirs.log_dir().clone());
    assert(path_views(order@) =~= seq![
        dirs.spec_data_dir()@,
        dirs.spec_config_dir()@,
        dirs.spec_cache_dir()@,
        dirs.spec_temporary_dir()@,
        dirs.spec_log_dir()@,
    ]);
    order
}

/// What creating the directories of `order` one after another reports,
/// where `failed` is the index of the first that could not be created: the
/// failure names that directory.
pub fn creation_result(order: &Vec<NativePath>, failed: Option<usize>) -> (res: Result<(), Error>)
    ensures
        match failed {
            Some(i) if i < order@.len() => res matches Err(Error::CreateDirectoryFailed(dir))
                && dir@ == order@[i as int]@,
            _ => res is Ok,
        },
{
    match failed {
        Some(i) => {
            if i < order.len() {
                Err(Error::CreateDirectoryFailed(order[i].clone()))
            } else {
                Ok(())
            }
        },
        None => Ok(()),
    }
}

} // verus!

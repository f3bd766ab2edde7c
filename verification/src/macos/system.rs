//! The system-wide directories of macOS and of an application on it.

pub mod iri;

use crate::macos::{subdirectory, subdirectory_view, Domain};
use crate::path::native::{joined_view, NativePath};
use crate::AppDirsView;
use crate::app_dirs_view;
use vstd::prelude::*;
use vstd::string::StringSliceAdditionalSpecFns;

verus! {

/// `Services` in the library directory of the system.
pub fn services_dir(domain: &Domain) -> (dir: NativePath)
    ensures
        dir@ == subdirectory_view(domain.library@, "Services".spec_bytes()),
{
    subdirectory(&domain.library, "Services")
}

/// The directory for application support files of the system.
pub fn application_support_dir(domain: &Domain) -> (dir: &NativePath)
    ensures
        *dir == domain.application_support,
{
    &domain.application_support
}

/// The data directory of the system: the one for application support
/// files.
pub fn data_dir(domain: &Domain) -> (dir: &NativePath)
    ensures
        *dir == domain.application_support,
{
    application_support_dir(domain)
}

/// The directory for caches of the system.
pub fn cache_dir(domain: &Domain) -> (dir: &NativePath)
    ensures
        *dir == domain.caches,
{
    &domain.caches
}

/// `Logs` in the library directory of the system.
pub fn log_dir(domain: &Domain) -> (dir: NativePath)
    ensures
        dir@ == subdirectory_view(domain.library@, "Logs".spec_bytes()),
{
    subdirectory(&domain.library, "Logs")
}

/// The system-wide directories of the application `prefix`: data below the
/// application support directory, caches below the cache directory, logs
/// below `Logs`, configuration in `config` below the data and temporary
/// files in `tmp` below the caches.
pub open spec fn app_directories(domain: Domain, prefix: Seq<u8>) -> AppDirsView {
    let data = joined_view(domain.application_support@, prefix);
    let cache = joined_view(domain.caches@, prefix);
    AppDirsView {
        data_dir: data,
        config_dir: joined_view(data, "config".spec_bytes()),
        cache_dir: cache,
        log_dir: joined_view(subdirectory_view(domain.library@, "Logs".spec_bytes()), prefix),
        temporary_dir: joined_view(cache, "tmp".spec_bytes()),
    }
}

/// The directories of one application.
pub struct AppDirs {
    data_dir: NativePath,
    config_dir: NativePath,
    cache_dir: NativePath,
    log_dir: NativePath,
    temporary_dir: NativePath,
}

impl crate::AppDirs for AppDirs {
    closed spec fn spec_data_dir(&self) -> NativePath {
        self.data_dir
    }

    closed spec fn spec_config_dir(&self) -> NativePath {
        self.config_dir
    }

    closed spec fn spec_cache_dir(&self) -> NativePath {
        self.cache_dir
    }

    closed spec fn spec_log_dir(&self) -> NativePath {
        self.log_dir
    }

    closed spec fn spec_temporary_dir(&self) -> NativePath {
        self.temporary_dir
    }

    fn data_dir(&self) -> (dir: &NativePath) {
        &self.data_dir
    }

    fn config_dir(&self) -> (dir: &NativePath) {
        &self.config_dir
    }

    fn cache_dir(&self) -> (dir: &NativePath) {
        &self.cache_dir
    }

    fn log_dir(&self) -> (dir: &NativePath) {
        &self.log_dir
    }

    fn temporary_dir(&self) -> (dir: &NativePath) {
        &self.temporary_dir
    }
}

impl AppDirs {
    /// The system-wide directories of the application `prefix`.
    pub fn new(domain: &Domain, prefix: &[u8]) -> (dirs: AppDirs)
        ensures
            app_dirs_view(dirs) == app_directories(*domain, prefix@),
    {
        let data_dir = application_support_dir(domain).join(prefix);
        let cache_dir = cache_dir(domain).join(prefix);
        AppDirs {
            config_dir: data_dir.join_str("config"),
            temporary_dir: cache_dir.join_str("tmp"),
            log_dir: log_dir(domain).join(prefix),
            data_dir,
            cache_dir,
        }
    }
}

/// `prefix` below the data directory of the system.
pub fn app_config_dir(domain: &Domain, prefix: &[u8]) -> (dir: NativePath)
    ensures
        dir@ == joined_view(domain.application_support@, prefix@),
{
    data_dir(domain).join(prefix)
}

/// `prefix` below the cache directory of the system.
pub fn app_cache_dir(domain: &Domain, prefix: &[u8]) -> (dir: NativePath)
    ensures
        dir@ == joined_view(domain.caches@, prefix@),
{
    cache_dir(domain).join(prefix)
}

/// `tmp` below the cache directory of the application.
pub fn app_temporary_dir(domain: &Domain, prefix: &[u8]) -> (dir: NativePath)
    ensures
        dir@ == joined_view(joined_view(domain.caches@, prefix@), "tmp".spec_bytes()),
{
    app_cache_dir(domain, prefix).join_str("tmp")
}

/// `prefix` below the log directory of the system.
pub fn app_log_dir(domain: &Domain, prefix: &[u8]) -> (dir: NativePath)
    ensures
        dir@ == joined_view(subdirectory_view(domain.library@, "Logs".spec_bytes()), prefix@),
{
    log_dir(domain).join(prefix)
}

} // verus!

//! The system-wide directories of an application on Linux.

use crate::path::native::{joined_view, posix_view, NativePath, PathView};
use crate::AppDirsView;
use crate::app_dirs_view;
use vstd::prelude::*;
use vstd::string::StringSliceAdditionalSpecFns;

verus! {

/// `prefix` below the POSIX directory that `base` spells.
pub open spec fn below_posix(base: Seq<u8>, prefix: Seq<u8>) -> PathView {
    joined_view(posix_view(base), prefix)
}

/// The system-wide directories of the application `prefix`: data below
/// `/usr/share/`, caches below `/var/cache/`, logs below `/var/log/`,
/// configuration in `config` below the data and temporary files in `tmp`
/// below the caches.
pub open spec fn app_directories(prefix: Seq<u8>) -> AppDirsView {
    let data = below_posix("/usr/share/".spec_bytes(), prefix);
    let cache = below_posix("/var/cache/".spec_bytes(), prefix);
    AppDirsView {
        data_dir: data,
        config_dir: joined_view(data, "config".spec_bytes()),
        cache_dir: cache,
        log_dir: below_posix("/var/log/".spec_bytes(), prefix),
        temporary_dir: joined_view(cache, "tmp".spec_bytes()),
    }
}

/// The directories of one application.
pub struct AppDirs {
    data_dir: NativePath,
    config_dir: NativePath,
    cache_dir: NativePath,
    log_dir: NativePath,
    temporary_dir: NativePath,
}

impl crate::AppDirs for AppDirs {
    closed spec fn spec_data_dir(&self) -> NativePath {
        self.data_dir
    }

    closed spec fn spec_config_dir(&self) -> NativePath {
        self.config_dir
    }

    closed spec fn spec_cache_dir(&self) -> NativePath {
        self.cache_dir
    }

    closed spec fn spec_log_dir(&self) -> NativePath {
        self.log_dir
    }

    closed spec fn spec_temporary_dir(&self) -> NativePath {
        self.temporary_dir
    }

    fn data_dir(&self) -> (dir: &NativePath) {
        &self.data_dir
    }

    fn config_dir(&self) -> (dir: &NativePath) {
        &self.config_dir
    }

    fn cache_dir(&self) -> (dir: &NativePath) {
        &self.cache_dir
    }

    fn log_dir(&self) -> (dir: &NativePath) {
        &self.log_dir
    }

    fn temporary_dir(&self) -> (dir: &NativePath) {
        &self.temporary_dir
    }
}

impl AppDirs {
    /// The system-wide directories of the application `prefix`.
    pub fn new(prefix: &[u8]) -> (dirs: AppDirs)
        ensures
            app_dirs_view(dirs) == app_directories(prefix@),
    {
        let data_dir = app_data_dir(prefix);
        let cache_dir = app_cache_dir(prefix);
        AppDirs {
            config_dir: data_dir.join_str("config"),
            temporary_dir: cache_dir.join_str("tmp"),
            log_dir: app_log_dir(prefix),
            data_dir,
            cache_dir,
        }
    }
}

/// `prefix` below `/usr/share/`.
pub fn app_data_dir(prefix: &[u8]) -> (dir: NativePath)
    ensures
        dir@ == below_posix("/usr/share/".spec_bytes(), prefix@),
{
    NativePath::posix("/usr/share/").join(prefix)
}

/// `prefix` below `/etc/`.
pub fn app_config_dir(prefix: &[u8]) -> (dir: NativePath)
    ensures
        dir@ == below_posix("/etc/".spec_bytes(), prefix@),
{
    NativePath::posix("/etc/").join(prefix)
}

/// `prefix` below `/var/cache/`.
pub fn app_cache_dir(prefix: &[u8]) -> (dir: NativePath)
    ensures
        dir@ == below_posix("/var/cache/".spec_bytes(), prefix@),
{
    NativePath::posix("/var/cache/").join(prefix)
}

/// `prefix` below `/var/tmp/`.
pub fn app_temporary_dir(prefix: &[u8]) -> (dir: NativePath)
    ensures
        dir@ == below_posix("/var/tmp/".spec_bytes(), prefix@),
{
    NativePath::posix("/var/tmp/").join(prefix)
}

/// `prefix` below `/var/log/`.
pub fn app_log_dir(prefix: &[u8]) -> (dir: NativePath)
    ensures
        dir@ == below_posix("/var/log/".spec_bytes(), prefix@),
{
    NativePath::posix("/var/log/").join(prefix)
}

} // verus!

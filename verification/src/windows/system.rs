//! The system-wide directories of an application on Windows, below the
//! known folder `ProgramData`.

pub mod iri;

use crate::path::native::{joined_view, optional_view, NativePath, PathView};
use crate::AppDirsView;
use crate::Error;
use crate::app_dirs_view;
use vstd::prelude::*;
use vstd::string::StringSliceAdditionalSpecFns;

verus! {

/// The name under which a missing `ProgramData` is reported.
pub open spec fn program_data_name() -> &'static str {
    "ProgramData"
}

/// Whether `e` reports that the known folder `name` is missing.
pub open spec fn is_not_found(e: Error, name: &'static str) -> bool {
    e matches Error::NotFound(n) && n == name
}

/// The known folder `ProgramData`.
fn config_dir(program_data: &Option<NativePath>) -> (res: Result<&NativePath, Error>)
    ensures
        match res {
            Ok(dir) => *program_data == Some(*dir),
            Err(e) => *program_data is None && is_not_found(e, program_data_name()),
        },
{
    match program_data {
        Some(dir) => Ok(dir),
        None => Err(Error::NotFound("ProgramData")),
    }
}

/// The system-wide directories of the application `prefix`, where
/// `ProgramData` is known: data in `prefix` below it, and `config`, `cache`
/// and `log` below the data, with `tmp` below the caches.
pub open spec fn app_directories(program_data: Option<PathView>, prefix: Seq<u8>) -> Option<
    AppDirsView,
> {
    match program_data {
        Some(base) => {
            let data = joined_view(base, prefix);
            let cache = joined_view(data, "cache".spec_bytes());
            Some(
                AppDirsView {
                    data_dir: data,
                    config_dir: joined_view(data, "config".spec_bytes()),
                    cache_dir: cache,
                    log_dir: joined_view(data, "log".spec_bytes()),
                    temporary_dir: joined_view(cache, "tmp".spec_bytes()),
                },
            )
        },
        None => None,
    }
}

/// The directories of one application.
pub struct AppDirs {
    data_dir: NativePath,
    config_dir: NativePath,
    cache_dir: NativePath,
    log_dir: NativePath,
    temporary_dir: NativePath,
}

impl crate::AppDirs for AppDirs {
    closed spec fn spec_data_dir(&self) -> NativePath {
        self.data_dir
    }

    closed spec fn spec_config_dir(&self) -> NativePath {
        self.config_dir
    }

    closed spec fn spec_cache_dir(&self) -> NativePath {
        self.cache_dir
    }

    closed spec fn spec_log_dir(&self) -> NativePath {
        self.log_dir
    }

    closed spec fn spec_temporary_dir(&self) -> NativePath {
        self.temporary_dir
    }

    fn data_dir(&self) -> (dir: &NativePath) {
        &self.data_dir
    }

    fn config_dir(&self) -> (dir: &NativePath) {
        &self.config_dir
    }

    fn cache_dir(&self) -> (dir: &NativePath) {
        &self.cache_dir
    }

    fn log_dir(&self) -> (dir: &NativePath) {
        &self.log_dir
    }

    fn temporary_dir(&self) -> (dir: &NativePath) {
        &self.temporary_dir
    }
}

impl AppDirs {
    /// The system-wide directories of the application `prefix`.
    pub fn new(program_data: &Option<NativePath>, prefix: &[u8]) -> (res: Result<AppDirs, Error>)
        ensures
            match res {
                Ok(dirs) => app_directories(optional_view(*program_data), prefix@) == Some(
                    app_dirs_view(dirs),
                ),
                Err(e) => *program_data is None && is_not_found(e, program_data_name()),
            },
    {
        let base = match config_dir(program_data) {
            Ok(dir) => dir,
            Err(e) => {
                return Err(e);
            },
        };
        let data_dir = base.join(prefix);
        let cache_dir = data_dir.join_str("cache");
        Ok(
            AppDirs {
                config_dir: data_dir.join_str("config"),
                log_dir: data_dir.join_str("log"),
                temporary_dir: cache_dir.join_str("tmp"),
                data_dir,
                cache_dir,
            },
        )
    }
}

/// The data directory of the application `prefix`.
pub fn app_data_dir(program_data: &Option<NativePath>, prefix: &[u8]) -> (res: Result<
    NativePath,
    Error,
>)
    ensures
        match res {
            Ok(dir) => app_directories(optional_view(*program_data), prefix@) matches Some(dirs)
                && dirs.data_dir == dir@,
            Err(e) => *program_data is None && is_not_found(e, program_data_name()),
        },
{
    match config_dir(program_data) {
        Ok(base) => Ok(base.join(prefix)),
        Err(e) => Err(e),
    }
}

/// The config directory of the application `prefix`.
pub fn app_config_dir(program_data: &Option<NativePath>, prefix: &[u8]) -> (res: Result<
    NativePath,
    Error,
>)
    ensures
        match res {
            Ok(dir) => app_directories(optional_view(*program_data), prefix@) matches Some(dirs)
                && dirs.config_dir == dir@,
            Err(e) => *program_data is None && is_not_found(e, program_data_name()),
        },
{
    match app_data_dir(program_data, prefix) {
        Ok(data) => Ok(data.join_str("config")),
        Err(e) => Err(e),
    }
}

/// The cache directory of the application `prefix`.
pub fn app_cache_dir(program_data: &Option<NativePath>, prefix: &[u8]) -> (res: Result<
    NativePath,
    Error,
>)
    ensures
        match res {
            Ok(dir) => app_directories(optional_view(*program_data), prefix@) matches Some(dirs)
                && dirs.cache_dir == dir@,
            Err(e) => *program_data is None && is_not_found(e, program_data_name()),
        },
{
    match app_data_dir(program_data, prefix) {
        Ok(data) => Ok(data.join_str("cache")),
        Err(e) => Err(e),
    }
}

/// The log directory of the application `prefix`.
pub fn app_log_dir(program_data: &Option<NativePath>, prefix: &[u8]) -> (res: Result<
    NativePath,
    Error,
>)
    ensures
        match res {
            Ok(dir) => app_directories(optional_view(*program_data), prefix@) matches Some(dirs)
                && dirs.log_dir == dir@,
            Err(e) => *program_data is None && is_not_found(e, program_data_name()),
        },
{
    match app_data_dir(program_data, prefix) {
        Ok(data) => Ok(data.join_str("log")),
        Err(e) => Err(e),
    }
}

/// The temporary directory of the application `prefix`.
pub fn app_temporary_dir(program_data: &Option<NativePath>, prefix: &[u8]) -> (res: Result<
    NativePath,
    Error,
>)
    ensures
        match res {
            Ok(dir) => app_directories(optional_view(*program_data), prefix@) matches Some(dirs)
                && dirs.temporary_dir == dir@,
            Err(e) => *program_data is None && is_not_found(e, program_data_name()),
        },
{
    match app_cache_dir(program_data, prefix) {
        Ok(cache) => Ok(cache.join_str("tmp")),
        Err(e) => Err(e),
    }
}

} // verus!

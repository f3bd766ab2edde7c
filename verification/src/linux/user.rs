//! The directories of a user and of an application of that user on Linux.

pub mod iri;

use crate::path::native::{joined_view, optional_view, NativePath};
use crate::xdg::user::{cache_base, config_base, data_base};
use crate::xdg::{cache_home, config_home, data_home, home_dir, Environment};
use crate::AppDirsView;
use crate::Error;
use crate::UserDirs;
use crate::app_dirs_view;
use vstd::prelude::*;
use vstd::string::StringSliceAdditionalSpecFns;

verus! {

/// The directories of a user.
pub struct Dirs {
    home_dir: NativePath,
    data_dir: NativePath,
    cache_dir: NativePath,
}

impl UserDirs for Dirs {
    closed spec fn spec_home_dir(&self) -> NativePath {
        self.home_dir
    }

    closed spec fn spec_data_dir(&self) -> NativePath {
        self.data_dir
    }

    closed spec fn spec_cache_dir(&self) -> NativePath {
        self.cache_dir
    }

    fn home_dir(&self) -> (dir: &NativePath) {
        &self.home_dir
    }

    fn data_dir(&self) -> (dir: &NativePath) {
        &self.data_dir
    }

    fn cache_dir(&self) -> (dir: &NativePath) {
        &self.cache_dir
    }
}

impl Dirs {
    /// The directories of the user of `env`: the home directory and the
    /// XDG data and cache directories. Without a home directory there are
    /// none.
    pub fn new(env: &Environment) -> (res: Result<Dirs, Error>)
        ensures
            match res {
                Ok(dirs) => {
                    &&& optional_view(env.home) == Some(dirs.spec_home_dir()@)
                    &&& data_base(*env) == Some(dirs.spec_data_dir()@)
                    &&& cache_base(*env) == Some(dirs.spec_cache_dir()@)
                },
                Err(e) => env.home is None && e is NoHomeDirectory,
            },
    {
        let home_dir = match home_dir(env) {
            Ok(dir) => dir,
            Err(e) => {
                return Err(e);
            },
        };
        let data_dir = match data_home(env) {
            Ok(dir) => dir,
            Err(e) => {
                return Err(e);
            },
        };
        let cache_dir = match cache_home(env) {
            Ok(dir) => dir,
            Err(e) => {
                return Err(e);
            },
        };
        Ok(Dirs { home_dir, data_dir, cache_dir })
    }
}

/// The directories of the application `prefix` for the user of `env`, where
/// the three base directories are known: data, configuration and caches
/// below the base directories, logs in `log` below the data and temporary
/// files in `tmp` below the caches.
pub open spec fn app_directories(env: Environment, prefix: Seq<u8>) -> Option<AppDirsView> {
    match (data_base(env), config_base(env), cache_base(env)) {
        (Some(data), Some(config), Some(cache)) => {
            let data_dir = joined_view(data, prefix);
            let cache_dir = joined_view(cache, prefix);
            Some(
                AppDirsView {
                    data_dir,
                    config_dir: joined_view(config, prefix),
                    cache_dir,
                    log_dir: joined_view(data_dir, "log".spec_bytes()),
                    temporary_dir: joined_view(cache_dir, "tmp".spec_bytes()),
                },
            )
        },
        _ => None,
    }
}

/// The directories of one application.
pub struct AppDirs {
    data_dir: NativePath,
    config_dir: NativePath,
    cache_dir: NativePath,
    log_dir: NativePath,
    temporary_dir: NativePath,
}

impl crate::AppDirs for AppDirs {
    closed spec fn spec_data_dir(&self) -> NativePath {
        self.data_dir
    }

    closed spec fn spec_config_dir(&self) -> NativePath {
        self.config_dir
    }

    closed spec fn spec_cache_dir(&self) -> NativePath {
        self.cache_dir
    }

    closed spec fn spec_log_dir(&self) -> NativePath {
        self.log_dir
    }

    closed spec fn spec_temporary_dir(&self) -> NativePath {
        self.temporary_dir
    }

    fn data_dir(&self) -> (dir: &NativePath) {
        &self.data_dir
    }

    fn config_dir(&self) -> (dir: &NativePath) {
        &self.config_dir
    }

    fn cache_dir(&self) -> (dir: &NativePath) {
        &self.cache_dir
    }

    fn log_dir(&self) -> (dir: &NativePath) {
        &self.log_dir
    }

    fn temporary_dir(&self) -> (dir: &NativePath) {
        &self.temporary_dir
    }
}

impl AppDirs {
    /// The directories of the application `prefix` for the user of `env`.
    pub fn new(env: &Environment, prefix: &[u8]) -> (res: Result<AppDirs, Error>)
        ensures
            match res {
                Ok(dirs) => app_directories(*env, prefix@) == Some(app_dirs_view(dirs)),
                Err(e) => app_directories(*env, prefix@) is None && e is NoHomeDirectory,
            },
    {
        let data_dir = match data_home(env) {
            Ok(dir) => dir.join(prefix),
            Err(e) => {
                return Err(e);
            },
        };
        let config_dir = match config_home(env) {
            Ok(dir) => dir.join(prefix),
            Err(e) => {
                return Err(e);
            },
        };
        let cache_dir = match cache_home(env) {
            Ok(dir) => dir.join(prefix),
            Err(e) => {
                return Err(e);
            },
        };
        let temporary_dir = cache_dir.join_str("tmp");
        let log_dir = data_dir.join_str("log");
        Ok(AppDirs { data_dir, config_dir, cache_dir, log_dir, temporary_dir })
    }
}

/// The data directory of the user.
pub fn data_dir(env: &Environment) -> (res: Result<NativePath, Error>)
    ensures
        match res {
            Ok(dir) => env.home is Some && data_base(*env) == Some(dir@),
            Err(e) => env.home is None && e is NoHomeDirectory,
        },
{
    match Dirs::new(env) {
        Ok(dirs) => Ok(dirs.data_dir),
        Err(e) => Err(e),
    }
}

/// The cache directory of the user.
pub fn cache_dir(env: &Environment) -> (res: Result<NativePath, Error>)
    ensures
        match res {
            Ok(dir) => env.home is Some && cache_base(*env) == Some(dir@),
            Err(e) => env.home is None && e is NoHomeDirectory,
        },
{
    match Dirs::new(env) {
        Ok(dirs) => Ok(dirs.cache_dir),
        Err(e) => Err(e),
    }
}

/// The data directory of the application `prefix`.
pub fn app_data_dir(env: &Environment, prefix: &[u8]) -> (res: Result<NativePath, Error>)
    ensures
        match res {
            Ok(dir) => app_directories(*env, prefix@) matches Some(dirs) && dirs.data_dir == dir@,
            Err(e) => app_directories(*env, prefix@) is None && e is NoHomeDirectory,
        },
{
    match AppDirs::new(env, prefix) {
        Ok(dirs) => Ok(dirs.data_dir),
        Err(e) => Err(e),
    }
}

/// The config directory of the application `prefix`.
pub fn app_config_dir(env: &Environment, prefix: &[u8]) -> (res: Result<NativePath, Error>)
    ensures
        match res {
            Ok(dir) => app_directories(*env, prefix@) matches Some(dirs) && dirs.config_dir
                == dir@,
            Err(e) => app_directories(*env, prefix@) is None && e is NoHomeDirectory,
        },
{
    match AppDirs::new(env, prefix) {
        Ok(dirs) => Ok(dirs.config_dir),
        Err(e) => Err(e),
    }
}

/// The log directory of the application `prefix`.
pub fn app_log_dir(env: &Environment, prefix: &[u8]) -> (res: Result<NativePath, Error>)
    ensures
        match res {
            Ok(dir) => app_directories(*env, prefix@) matches Some(dirs) && dirs.log_dir == dir@,
            Err(e) => app_directories(*env, prefix@) is None && e is NoHomeDirectory,
        },
{
    match AppDirs::new(env, prefix) {
        Ok(dirs) => Ok(dirs.log_dir),
        Err(e) => Err(e),
    }
}

/// The cache directory of the application `prefix`.
pub fn app_cache_dir(env: &Environment, prefix: &[u8]) -> (res: Result<NativePath, Error>)
    ensures
        match res {
            Ok(dir) => app_directories(*env, prefix@) matches Some(dirs) && dirs.cache_dir
                == dir@,
            Err(e) => app_directories(*env, prefix@) is None && e is NoHomeDirectory,
        },
{
    match AppDirs::new(env, prefix) {
        Ok(dirs) => Ok(dirs.cache_dir),
        Err(e) => Err(e),
    }
}

/// The temporary directory of the application `prefix`.
pub fn app_temporary_dir(env: &Environment, prefix: &[u8]) -> (res: Result<NativePath, Error>)
    ensures
        match res {
            Ok(dir) => app_directories(*env, prefix@) matches Some(dirs) && dirs.temporary_dir
                == dir@,
            Err(e) => app_directories(*env, prefix@) is None && e is NoHomeDirectory,
        },
{
    match AppDirs::new(env, prefix) {
        Ok(dirs) => Ok(dirs.temporary_dir),
        Err(e) => Err(e),
    }
}

} // verus!

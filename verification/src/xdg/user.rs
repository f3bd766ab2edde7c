//! The directories of an application below the XDG base directories.

pub use crate::xdg::{
    cache_home, config_dirs, config_home, data_dirs, data_home, runtime_dir, RuntimeDirError,
};

use crate::path::native::{joined_view, optional_view, NativePath, PathView};
use crate::xdg::{base_directory, Environment};
use crate::Error;
use vstd::prelude::*;
use vstd::string::StringSliceAdditionalSpecFns;

verus! {

/// `prefix` below the base directory `base`, where there is one.
pub open spec fn below(base: Option<PathView>, prefix: Seq<u8>) -> Option<PathView> {
    match base {
        Some(b) => Some(joined_view(b, prefix)),
        None => None,
    }
}

/// The data base directory of `env`.
pub open spec fn data_base(env: Environment) -> Option<PathView> {
    base_directory(
        optional_view(env.data_home),
        optional_view(env.home),
        ".local/share".spec_bytes(),
    )
}

/// The config base directory of `env`.
pub open spec fn config_base(env: Environment) -> Option<PathView> {
    base_directory(optional_view(env.config_home), optional_view(env.home), ".config".spec_bytes())
}

/// The cache base directory of `env`.
pub open spec fn cache_base(env: Environment) -> Option<PathView> {
    base_directory(optional_view(env.cache_home), optional_view(env.home), ".cache".spec_bytes())
}

/// `prefix` below the data directory.
pub fn app_data_dir(env: &Environment, prefix: &[u8]) -> (res: Result<NativePath, Error>)
    ensures
        match res {
            Ok(dir) => below(data_base(*env), prefix@) == Some(dir@),
            Err(e) => data_base(*env) is None && e is NoHomeDirectory,
        },
{
    match data_home(env) {
        Ok(base) => Ok(base.join(prefix)),
        Err(e) => Err(e),
    }
}

/// `prefix` below the config directory.
pub fn app_config_dir(env: &Environment, prefix: &[u8]) -> (res: Result<NativePath, Error>)
    ensures
        match res {
            Ok(dir) => below(config_base(*env), prefix@) == Some(dir@),
            Err(e) => config_base(*env) is None && e is NoHomeDirectory,
        },
{
    match config_home(env) {
        Ok(base) => Ok(base.join(prefix)),
        Err(e) => Err(e),
    }
}

/// `log` below the data directory of the application.
pub fn app_log_dir(env: &Environment, prefix: &[u8]) -> (res: Result<NativePath, Error>)
    ensures
        match res {
            Ok(dir) => below(below(data_base(*env), prefix@), "log".spec_bytes()) == Some(dir@),
            Err(e) => data_base(*env) is None && e is NoHomeDirectory,
        },
{
    match data_home(env) {
        Ok(base) => Ok(base.join(prefix).join_str("log")),
        Err(e) => Err(e),
    }
}

/// `prefix` below the cache directory.
pub fn app_cache_dir(env: &Environment, prefix: &[u8]) -> (res: Result<NativePath, Error>)
    ensures
        match res {
            Ok(dir) => below(cache_base(*env), prefix@) == Some(dir@),
            Err(e) => cache_base(*env) is None && e is NoHomeDirectory,
        },
{
    match cache_home(env) {
        Ok(base) => Ok(base.join(prefix)),
        Err(e) => Err(e),
    }
}

/// `tmp` below the cache directory of the application.
pub fn app_temporary_dir(env: &Environment, prefix: &[u8]) -> (res: Result<NativePath, Error>)
    ensures
        match res {
            Ok(dir) => below(below(cache_base(*env), prefix@), "tmp".spec_bytes()) == Some(dir@),
            Err(e) => cache_base(*env) is None && e is NoHomeDirectory,
        },
{
    match cache_home(env) {
        Ok(base) => Ok(base.join(prefix).join_str("tmp")),
        Err(e) => Err(e),
    }
}

} // verus!

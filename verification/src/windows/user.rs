//! The directories of a user of Windows and of an application of that
//! user, below the known folder of the user's profile.

pub mod iri;

use crate::path::native::{joined_view, optional_view, NativePath, PathView};
use crate::windows::system::is_not_found;
use crate::AppDirsView;
use crate::Error;
use crate::UserDirs;
use crate::app_dirs_view;
use vstd::prelude::*;
use vstd::string::StringSliceAdditionalSpecFns;

verus! {

/// The name under which a missing profile folder is reported.
pub open spec fn home_name() -> &'static str {
    "Home"
}

/// The known folder of the user's profile.
pub fn home_dir(profile: &Option<NativePath>) -> (res: Result<&NativePath, Error>)
    ensures
        match res {
            Ok(dir) => *profile == Some(*dir),
            Err(e) => *profile is None && is_not_found(e, home_name()),
        },
{
    match profile {
        Some(dir) => Ok(dir),
        None => Err(Error::NotFound("Home")),
    }
}

/// The directories of a user.
pub struct Dirs {
    home_dir: NativePath,
    roaming_dir: NativePath,
    local_dir: NativePath,
}

/// The roaming directory below the profile folder `home`:
/// `AppData\Roaming`.
pub open spec fn roaming_view(home: PathView) -> PathView {
    joined_view(joined_view(home, "AppData".spec_bytes()), "Roaming".spec_bytes())
}

/// The local directory below the profile folder `home`: `AppData\Local`.
pub open spec fn local_view(home: PathView) -> PathView {
    joined_view(joined_view(home, "AppData".spec_bytes()), "Local".spec_bytes())
}

impl UserDirs for Dirs {
    closed spec fn spec_home_dir(&self) -> NativePath {
        self.home_dir
    }

    closed spec fn spec_data_dir(&self) -> NativePath {
        self.roaming_dir
    }

    closed spec fn spec_cache_dir(&self) -> NativePath {
        self.local_dir
    }

    fn home_dir(&self) -> (dir: &NativePath) {
        &self.home_dir
    }

    fn data_dir(&self) -> (dir: &NativePath) {
        &self.roaming_dir
    }

    fn cache_dir(&self) -> (dir: &NativePath) {
        &self.local_dir
    }
}

impl Dirs {
    /// The directories of the user with the profile folder `profile`: the
    /// roaming directory holds data, the local directory caches.
    pub fn new(profile: &Option<NativePath>) -> (res: Result<Dirs, Error>)
        ensures
            match res {
                Ok(dirs) => {
                    &&& optional_view(*profile) == Some(dirs.spec_home_dir()@)
                    &&& dirs.spec_data_dir()@ == roaming_view(dirs.spec_home_dir()@)
                    &&& dirs.spec_cache_dir()@ == local_view(dirs.spec_home_dir()@)
                },
                Err(e) => *profile is None && is_not_found(e, home_name()),
            },
    {
        let home = match home_dir(profile) {
            Ok(dir) => dir,
            Err(e) => {
                return Err(e);
            },
        };
        let appdata_dir = home.join_str("AppData");
        let roaming_dir = appdata_dir.join_str("Roaming");
        let local_dir = appdata_dir.join_str("Local");
        Ok(Dirs { local_dir, roaming_dir, home_dir: home.clone() })
    }
}

/// The directories of the application `prefix` for the user with the
/// profile folder `profile`, where that is known: data in `prefix` below
/// the roaming directory, with `config` and `log` below it; caches in
/// `cache` below `prefix` in the local directory, with `tmp` below them.
pub open spec fn app_directories(profile: Option<PathView>, prefix: Seq<u8>) -> Option<
    AppDirsView,
> {
    match profile {
        Some(home) => {
            let data = joined_view(roaming_view(home), prefix);
            let cache = joined_view(joined_view(local_view(home), prefix), "cache".spec_bytes());
            Some(
                AppDirsView {
                    data_dir: data,
                    config_dir: joined_view(data, "config".spec_bytes()),
                    cache_dir: cache,
                    log_dir: joined_view(data, "log".spec_bytes()),
                    temporary_dir: joined_view(cache, "tmp".spec_bytes()),
                },
            )
        },
        None => None,
    }
}

/// The directories of one application.
pub struct AppDirs {
    data_dir: NativePath,
    config_dir: NativePath,
    cache_dir: NativePath,
    log_dir: NativePath,
    temporary_dir: NativePath,
}

impl crate::AppDirs for AppDirs {
    closed spec fn spec_data_dir(&self) -> NativePath {
        self.data_dir
    }

    closed spec fn spec_config_dir(&self) -> NativePath {
        self.config_dir
    }

    closed spec fn spec_cache_dir(&self) -> NativePath {
        self.cache_dir
    }

    closed spec fn spec_log_dir(&self) -> NativePath {
        self.log_dir
    }

    closed spec fn spec_temporary_dir(&self) -> NativePath {
        self.temporary_dir
    }

    fn data_dir(&self) -> (dir: &NativePath) {
        &self.data_dir
    }

    fn config_dir(&self) -> (dir: &NativePath) {
        &self.config_dir
    }

    fn cache_dir(&self) -> (dir: &NativePath) {
        &self.cache_dir
    }

    fn log_dir(&self) -> (dir: &NativePath) {
        &self.log_dir
    }

    fn temporary_dir(&self) -> (dir: &NativePath) {
        &self.temporary_dir
    }
}

impl AppDirs {
    /// The directories of the application `prefix` for the user with the
    /// profile folder `profile`.
    pub fn new(profile: &Option<NativePath>, prefix: &[u8]) -> (res: Result<AppDirs, Error>)
        ensures
            match res {
                Ok(dirs) => app_directories(optional_view(*profile), prefix@) == Some(
                    app_dirs_view(dirs),
                ),
                Err(e) => *profile is None && is_not_found(e, home_name()),
            },
    {
        let dirs = match Dirs::new(profile) {
            Ok(dirs) => dirs,
            Err(e) => {
                return Err(e);
            },
        };
        let data_dir = dirs.data_dir().join(prefix);
        let cache_dir = dirs.cache_dir().join(prefix).join_str("cache");
        Ok(
            AppDirs {
                config_dir: data_dir.join_str("config"),
                temporary_dir: cache_dir.join_str("tmp"),
                log_dir: data_dir.join_str("log"),
                data_dir,
                cache_dir,
            },
        )
    }
}

/// The roaming directory of the user.
pub fn roaming_dir(profile: &Option<NativePath>) -> (res: Result<NativePath, Error>)
    ensures
        match res {
            Ok(dir) => optional_view(*profile) matches Some(home) && dir@ == roaming_view(home),
            Err(e) => *profile is None && is_not_found(e, home_name()),
        },
{
    data_dir(profile)
}

/// The local directory of the user.
pub fn local_dir(profile: &Option<NativePath>) -> (res: Result<NativePath, Error>)
    ensures
        match res {
            Ok(dir) => optional_view(*profile) matches Some(home) && dir@ == local_view(home),
            Err(e) => *profile is None && is_not_found(e, home_name()),
        },
{
    cache_dir(profile)
}

/// The data directory of the user: the roaming directory.
pub fn data_dir(profile: &Option<NativePath>) -> (res: Result<NativePath, Error>)
    ensures
        match res {
            Ok(dir) => optional_view(*profile) matches Some(home) && dir@ == roaming_view(home),
            Err(e) => *profile is None && is_not_found(e, home_name()),
        },
{
    match Dirs::new(profile) {
        Ok(dirs) => Ok(dirs.roaming_dir),
        Err(e) => Err(e),
    }
}

/// The cache directory of the user: the local directory.
pub fn cache_dir(profile: &Option<NativePath>) -> (res: Result<NativePath, Error>)
    ensures
        match res {
            Ok(dir) => optional_view(*profile) matches Some(home) && dir@ == local_view(home),
            Err(e) => *profile is None && is_not_found(e, home_name()),
        },
{
    match Dirs::new(profile) {
        Ok(dirs) => Ok(dirs.local_dir),
        Err(e) => Err(e),
    }
}

/// The data directory of the application `prefix`.
pub fn app_data_dir(profile: &Option<NativePath>, prefix: &[u8]) -> (res: Result<
    NativePath,
    Error,
>)
    ensures
        match res {
            Ok(dir) => app_directories(optional_view(*profile), prefix@) matches Some(dirs)
                && dirs.data_dir == dir@,
            Err(e) => *profile is None && is_not_found(e, home_name()),
        },
{
    match AppDirs::new(profile, prefix) {
        Ok(dirs) => Ok(dirs.data_dir),
        Err(e) => Err(e),
    }
}

/// The config directory of the application `prefix`.
pub fn app_config_dir(profile: &Option<NativePath>, prefix: &[u8]) -> (res: Result<
    NativePath,
    Error,
>)
    ensures
        match res {
            Ok(dir) => app_directories(optional_view(*profile), prefix@) matches Some(dirs)
                && dirs.config_dir == dir@,
            Err(e) => *profile is None && is_not_found(e, home_name()),
        },
{
    match AppDirs::new(profile, prefix) {
        Ok(dirs) => Ok(dirs.config_dir),
        Err(e) => Err(e),
    }
}

/// The log directory of the application `prefix`.
pub fn app_log_dir(profile: &Option<NativePath>, prefix: &[u8]) -> (res: Result<
    NativePath,
    Error,
>)
    ensures
        match res {
            Ok(dir) => app_directories(optional_view(*profile), prefix@) matches Some(dirs)
                && dirs.log_dir == dir@,
            Err(e) => *profile is None && is_not_found(e, home_name()),
        },
{
    match AppDirs::new(profile, prefix) {
        Ok(dirs) => Ok(dirs.log_dir),
        Err(e) => Err(e),
    }
}

/// The cache directory of the application `prefix`.
pub fn app_cache_dir(profile: &Option<NativePath>, prefix: &[u8]) -> (res: Result<
    NativePath,
    Error,
>)
    ensures
        match res {
            Ok(dir) => app_directories(optional_view(*profile), prefix@) matches Some(dirs)
                && dirs.cache_dir == dir@,
            Err(e) => *profile is None && is_not_found(e, home_name()),
        },
{
    match AppDirs::new(profile, prefix) {
        Ok(dirs) => Ok(dirs.cache_dir),
        Err(e) => Err(e),
    }
}

/// The temporary directory of the application `prefix`.
pub fn app_temporary_dir(profile: &Option<NativePath>, prefix: &[u8]) -> (res: Result<
    NativePath,
    Error,
>)
    ensures
        match res {
            Ok(dir) => app_directories(optional_view(*profile), prefix@) matches Some(dirs)
                && dirs.temporary_dir == dir@,
            Err(e) => *profile is None && is_not_found(e, home_name()),
        },
{
    match AppDirs::new(profile, prefix) {
        Ok(dirs) => Ok(dirs.temporary_dir),
        Err(e) => Err(e),
    }
}

} // verus!

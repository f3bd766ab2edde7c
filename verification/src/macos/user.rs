//! The directories of a user of macOS and of an application of that user.

pub mod iri;

use crate::macos::{subdirectory, subdirectory_view, Domain};
use crate::path::native::{joined_view, NativePath, PathView};
use crate::AppDirsView;
use crate::UserDirs;
use crate::app_dirs_view;
use vstd::prelude::*;
use vstd::string::StringSliceAdditionalSpecFns;

verus! {

/// The directories of a user.
pub struct Dirs {
    home_dir: NativePath,
    data_dir: NativePath,
    cache_dir: NativePath,
    log_dir: NativePath,
    prefs_dir: NativePath,
    services_dir: NativePath,
}

/// The directories of a user, as contracts speak of it.
pub ghost struct DirsView {
    pub home_dir: PathView,
    pub data_dir: PathView,
    pub cache_dir: PathView,
    pub log_dir: PathView,
    pub prefs_dir: PathView,
    pub services_dir: PathView,
}

/// The directories of the user with the home directory `home` and the
/// domain `domain`: data and caches as the domain gives them, and `Logs`,
/// `Preferences` and `Services` in its library directory.
pub open spec fn user_directories(home: PathView, domain: Domain) -> DirsView {
    DirsView {
        home_dir: home,
        data_dir: domain.application_support@,
        cache_dir: domain.caches@,
        log_dir: subdirectory_view(domain.library@, "Logs".spec_bytes()),
        prefs_dir: subdirectory_view(domain.library@, "Preferences".spec_bytes()),
        services_dir: subdirectory_view(domain.library@, "Services".spec_bytes()),
    }
}

impl View for Dirs {
    type V = DirsView;

    closed spec fn view(&self) -> DirsView {
        DirsView {
            home_dir: self.home_dir@,
            data_dir: self.data_dir@,
            cache_dir: self.cache_dir@,
            log_dir: self.log_dir@,
            prefs_dir: self.prefs_dir@,
            services_dir: self.services_dir@,
        }
    }
}

impl Dirs {
    /// The directories of the user with the home directory `home`.
    pub fn new(home: NativePath, domain: &Domain) -> (dirs: Dirs)
        ensures
            dirs@ == user_directories(home@, *domain),
    {
        Dirs {
            data_dir: domain.application_support.clone(),
            cache_dir: domain.caches.clone(),
            log_dir: subdirectory(&domain.library, "Logs"),
            prefs_dir: subdirectory(&domain.library, "Preferences"),
            services_dir: subdirectory(&domain.library, "Services"),
            home_dir: home,
        }
    }

    /// The directory for application support files.
    pub fn application_support_dir(&self) -> (dir: &NativePath)
        ensures
            dir@ == self@.data_dir,
    {
        &self.data_dir
    }

    /// The directory for logs.
    pub fn log_dir(&self) -> (dir: &NativePath)
        ensures
            dir@ == self@.log_dir,
    {
        &self.log_dir
    }

    /// The directory for preferences.
    pub fn preferences_dir(&self) -> (dir: &NativePath)
        ensures
            dir@ == self@.prefs_dir,
    {
        &self.prefs_dir
    }

    /// The directory for services.
    pub fn services_dir(&self) -> (dir: &NativePath)
        ensures
            dir@ == self@.services_dir,
    {
        &self.services_dir
    }
}

impl UserDirs for Dirs {
    closed spec fn spec_home_dir(&self) -> NativePath {
        self.home_dir
    }

    closed spec fn spec_data_dir(&self) -> NativePath {
        self.data_dir
    }

    closed spec fn spec_cache_dir(&self) -> NativePath {
        self.cache_dir
    }

    fn home_dir(&self) -> (dir: &NativePath)
        ensures
            dir@ == self@.home_dir,
    {
        &self.home_dir
    }

    fn data_dir(&self) -> (dir: &NativePath)
        ensures
            dir@ == self@.data_dir,
    {
        &self.data_dir
    }

    fn cache_dir(&self) -> (dir: &NativePath)
        ensures
            dir@ == self@.cache_dir,
    {
        &self.cache_dir
    }
}

/// The directories of the application `prefix` for a user with the
/// directories `dirs`: data below the application support directory,
/// caches below the cache directory, logs below the log directory,
/// configuration in `config` below the data and temporary files in `tmp`
/// below the caches.
pub open spec fn app_directories(dirs: DirsView, prefix: Seq<u8>) -> AppDirsView {
    let data = joined_view(dirs.data_dir, prefix);
    let cache = joined_view(dirs.cache_dir, prefix);
    AppDirsView {
        data_dir: data,
        config_dir: joined_view(data, "config".spec_bytes()),
        cache_dir: cache,
        log_dir: joined_view(dirs.log_dir, prefix),
        temporary_dir: joined_view(cache, "tmp".spec_bytes()),
    }
}

/// The directories of one application.
pub struct AppDirs {
    data_dir: NativePath,
    config_dir: NativePath,
    cache_dir: NativePath,
    log_dir: NativePath,
    temporary_dir: NativePath,
}

impl crate::AppDirs for AppDirs {
    closed spec fn spec_data_dir(&self) -> NativePath {
        self.data_dir
    }

    closed spec fn spec_config_dir(&self) -> NativePath {
        self.config_dir
    }

    closed spec fn spec_cache_dir(&self) -> NativePath {
        self.cache_dir
    }

    closed spec fn spec_log_dir(&self) -> NativePath {
        self.log_dir
    }

    closed spec fn spec_temporary_dir(&self) -> NativePath {
        self.temporary_dir
    }

    fn data_dir(&self) -> (dir: &NativePath) {
        &self.data_dir
    }

    fn config_dir(&self) -> (dir: &NativePath) {
        &self.config_dir
    }

    fn cache_dir(&self) -> (dir: &NativePath) {
        &self.cache_dir
    }

    fn log_dir(&self) -> (dir: &NativePath) {
        &self.log_dir
    }

    fn temporary_dir(&self) -> (dir: &NativePath) {
        &self.temporary_dir
    }
}

impl AppDirs {
    /// The directories of the application `prefix` for the user with the
    /// directories `dirs`.
    pub fn new(dirs: &Dirs, prefix: &[u8]) -> (app: AppDirs)
        ensures
            app_dirs_view(app) == app_directories(dirs@, prefix@),
    {
        let data_dir = dirs.application_support_dir().join(prefix);
        let cache_dir = dirs.cache_dir().join(prefix);
        AppDirs {
            config_dir: data_dir.join_str("config"),
            temporary_dir: cache_dir.join_str("tmp"),
            log_dir: dirs.log_dir().join(prefix),
            data_dir,
            cache_dir,
        }
    }
}

/// The home directory of the user.
pub fn home_dir(dirs: &Dirs) -> (dir: &NativePath)
    ensures
        dir@ == dirs@.home_dir,
{
    dirs.home_dir()
}

/// The directory for application support files of the user.
pub fn application_support_dir(dirs: &Dirs) -> (dir: &NativePath)
    ensures
        dir@ == dirs@.data_dir,
{
    dirs.application_support_dir()
}

/// The data directory of the user: the one for application support files.
pub fn data_dir(dirs: &Dirs) -> (dir: &NativePath)
    ensures
        dir@ == dirs@.data_dir,
{
    application_support_dir(dirs)
}

/// The directory for preferences of the user.
pub fn preferences_dir(dirs: &Dirs) -> (dir: &NativePath)
    ensures
        dir@ == dirs@.prefs_dir,
{
    dirs.preferences_dir()
}

/// The directory for caches of the user.
pub fn cache_dir(dirs: &Dirs) -> (dir: &NativePath)
    ensures
        dir@ == dirs@.cache_dir,
{
    dirs.cache_dir()
}

/// The directory for logs of the user.
pub fn log_dir(dirs: &Dirs) -> (dir: &NativePath)
    ensures
        dir@ == dirs@.log_dir,
{
    dirs.log_dir()
}

/// The directory for services of the user.
pub fn services_dir(dirs: &Dirs) -> (dir: &NativePath)
    ensures
        dir@ == dirs@.services_dir,
{
    dirs.services_dir()
}

/// The data directory of the application `prefix`.
pub fn app_data_dir(dirs: &Dirs, prefix: &[u8]) -> (dir: NativePath)
    ensures
        dir@ == app_directories(dirs@, prefix@).data_dir,
{
    AppDirs::new(dirs, prefix).data_dir
}

/// The config directory of the application `prefix`.
pub fn app_config_dir(dirs: &Dirs, prefix: &[u8]) -> (dir: NativePath)
    ensures
        dir@ == app_directories(dirs@, prefix@).config_dir,
{
    AppDirs::new(dirs, prefix).config_dir
}

/// The log directory of the application `prefix`.
pub fn app_log_dir(dirs: &Dirs, prefix: &[u8]) -> (dir: NativePath)
    ensures
        dir@ == app_directories(dirs@, prefix@).log_dir,
{
    AppDirs::new(dirs, prefix).log_dir
}

/// The cache directory of the application `prefix`.
pub fn app_cache_dir(dirs: &Dirs, prefix: &[u8]) -> (dir: NativePath)
    ensures
        dir@ == app_directories(dirs@, prefix@).cache_dir,
{
    AppDirs::new(dirs, prefix).cache_dir
}

/// The temporary directory of the application `prefix`.
pub fn app_temporary_dir(dirs: &Dirs, prefix: &[u8]) -> (dir: NativePath)
    ensures
        dir@ == app_directories(dirs@, prefix@).temporary_dir,
{
    AppDirs::new(dirs, prefix).temporary_dir
}

} // verus!

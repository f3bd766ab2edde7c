//! The directories of a user of iOS: those of a user of macOS.

pub mod iri;

pub use crate::macos::user::{
    app_cache_dir, app_config_dir, app_data_dir, app_log_dir, app_temporary_dir,
    application_support_dir, cache_dir, data_dir, home_dir, log_dir, preferences_dir,
    services_dir, AppDirs, Dirs,
};

//! The directories of Android, below the container root that the host
//! hands over.

pub mod user;

//! The directories of Windows, computed from the known folders that the
//! system reports.

pub mod system;
pub mod user;

//! The directories of Linux: fixed system directories, and the XDG base
//! directories of the user.

pub mod system;
pub mod user;

//! Native paths as bytes, in one of two syntaxes.

pub mod absolute;
pub mod equality;
pub mod join;
pub mod native;
pub mod syntax;

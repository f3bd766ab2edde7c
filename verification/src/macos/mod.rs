//! The directories of macOS, computed from what the file manager of the
//! system reports for a domain.

pub mod system;
pub mod user;

use crate::bytes::append;
use crate::path::native::{NativePath, PathView};
use crate::path::syntax::SLASH;
use vstd::prelude::*;
use vstd::string::StringSliceAdditionalSpecFns;

verus! {

/// The directories that the file manager reports for one domain, the
/// system's or the user's.
pub struct Domain {
    /// The directory for application support files.
    pub application_support: NativePath,
    /// The directory for caches.
    pub caches: NativePath,
    /// The library directory.
    pub library: NativePath,
}

/// `base`, a `/` and `name`.
pub open spec fn subdirectory_view(base: PathView, name: Seq<u8>) -> PathView {
    PathView { style: base.style, bytes: base.bytes + seq![SLASH] + name }
}

/// The directory `name` written behind `base` and a `/`.
pub fn subdirectory(base: &NativePath, name: &str) -> (dir: NativePath)
    ensures
        dir@ == subdirectory_view(base@, name.spec_bytes()),
{
    let mut bytes = base.bytes.clone();
    bytes.push(SLASH);
    append(&mut bytes, name.as_bytes());
    assert(bytes@ =~= base.bytes@ + seq![SLASH] + name.spec_bytes());
    NativePath::new(base.style, bytes)
}

} // verus!

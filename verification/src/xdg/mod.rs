//! The XDG base directories, computed from the values of the environment.
//!
//! The caller reads the environment and hands the values over. A variable
//! counts only where its value is an absolute path; elsewhere the default
//! below the home directory is taken.

pub mod user;

use crate::path::native::{
    joined_view, optional_view, path_views, posix_view, NativePath, PathView,
};
use crate::path::syntax::is_absolute;
use crate::Error;
use vstd::prelude::*;
use vstd::string::StringSliceAdditionalSpecFns;

verus! {

/// What the environment holds of the XDG variables and the home directory.
pub struct Environment {
    /// The home directory of the user.
    pub home: Option<NativePath>,
    /// `XDG_DATA_HOME`
    pub data_home: Option<NativePath>,
    /// `XDG_CONFIG_HOME`
    pub config_home: Option<NativePath>,
    /// `XDG_CACHE_HOME`
    pub cache_home: Option<NativePath>,
    /// `XDG_RUNTIME_DIR`
    pub runtime_dir: Option<NativePath>,
    /// The paths of `XDG_DATA_DIRS`, in order.
    pub data_dirs: Option<Vec<NativePath>>,
    /// The paths of `XDG_CONFIG_DIRS`, in order.
    pub config_dirs: Option<Vec<NativePath>>,
}

/// `value` where it is set to an absolute path.
pub open spec fn absolute_value(value: Option<PathView>) -> Option<PathView> {
    match value {
        Some(v) => if is_absolute(v.style, v.bytes) {
            Some(v)
        } else {
            None
        },
        None => None,
    }
}

/// The base directory that a variable with `value` names: the value where
/// it is an absolute path, else `relative` below `home`, and nothing where
/// there is no home either.
pub open spec fn base_directory(
    value: Option<PathView>,
    home: Option<PathView>,
    relative: Seq<u8>,
) -> Option<PathView> {
    match absolute_value(value) {
        Some(v) => Some(v),
        None => match home {
            Some(h) => Some(joined_view(h, relative)),
            None => None,
        },
    }
}

/// The absolute paths among `list`, in order.
pub open spec fn absolute_only(list: Seq<PathView>) -> Seq<PathView>
    decreases list.len(),
{
    if list.len() == 0 {
        Seq::empty()
    } else if is_absolute(list.last().style, list.last().bytes) {
        absolute_only(list.drop_last()).push(list.last())
    } else {
        absolute_only(list.drop_last())
    }
}

/// The home directory.
pub fn home_dir(env: &Environment) -> (res: Result<NativePath, Error>)
    ensures
        match res {
            Ok(home) => optional_view(env.home) == Some(home@),
            Err(e) => env.home is None && e is NoHomeDirectory,
        },
{
    match &env.home {
        Some(home) => Ok(home.clone()),
        None => Err(Error::NoHomeDirectory),
    }
}

/// The base directory for `value`, with `relative` as the default below the
/// home directory.
fn base_dir(value: &Option<NativePath>, home: &Option<NativePath>, relative: &str) -> (res: Result<
    NativePath,
    Error,
>)
    ensures
        match res {
            Ok(dir) => base_directory(
                optional_view(*value),
                optional_view(*home),
                relative.spec_bytes(),
            ) == Some(dir@),
            Err(e) => base_directory(
                optional_view(*value),
                optional_view(*home),
                relative.spec_bytes(),
            ) is None && e is NoHomeDirectory,
        },
{
    match value {
        Some(v) => {
            if v.is_absolute() {
                return Ok(v.clone());
            }
        },
        None => {},
    }
    match home {
        Some(h) => Ok(h.join_str(relative)),
        None => Err(Error::NoHomeDirectory),
    }
}

/// The directory for user data: `XDG_DATA_HOME`, or `.local/share` below
/// the home directory.
pub fn data_home(env: &Environment) -> (res: Result<NativePath, Error>)
    ensures
        match res {
            Ok(dir) => base_directory(
                optional_view(env.data_home),
                optional_view(env.home),
                ".local/share".spec_bytes(),
            ) == Some(dir@),
            Err(e) => base_directory(
                optional_view(env.data_home),
                optional_view(env.home),
                ".local/share".spec_bytes(),
            ) is None && e is NoHomeDirectory,
        },
{
    base_dir(&env.data_home, &env.home, ".local/share")
}

/// The directory for user configuration: `XDG_CONFIG_HOME`, or `.config`
/// below the home directory.
pub fn config_home(env: &Environment) -> (res: Result<NativePath, Error>)
    ensures
        match res {
            Ok(dir) => base_directory(
                optional_view(env.config_home),
                optional_view(env.home),
                ".config".spec_bytes(),
            ) == Some(dir@),
            Err(e) => base_directory(
                optional_view(env.config_home),
                optional_view(env.home),
                ".config".spec_bytes(),
            ) is None && e is NoHomeDirectory,
        },
{
    base_dir(&env.config_home, &env.home, ".config")
}

/// The directory for user caches: `XDG_CACHE_HOME`, or `.cache` below the
/// home directory.
pub fn cache_home(env: &Environment) -> (res: Result<NativePath, Error>)
    ensures
        match res {
            Ok(dir) => base_directory(
                optional_view(env.cache_home),
                optional_view(env.home),
                ".cache".spec_bytes(),
            ) == Some(dir@),
            Err(e) => base_directory(
                optional_view(env.cache_home),
                optional_view(env.home),
                ".cache".spec_bytes(),
            ) is None && e is NoHomeDirectory,
        },
{
    base_dir(&env.cache_home, &env.home, ".cache")
}

/// The absolute paths among `list`, in order.
fn keep_absolute(list: &Vec<NativePath>) -> (out: Vec<NativePath>)
    ensures
        path_views(out@) == absolute_only(path_views(list@)),
{
    let ghost views = path_views(list@);
    let mut out: Vec<NativePath> = Vec::new();
    let mut i: usize = 0;
    assert(path_views(out@) =~= absolute_only(views.take(0)));
    while i < list.len()
        invariant
            i <= list@.len(),
            views == path_views(list@),
            path_views(out@) == absolute_only(views.take(i as int)),
        decreases list@.len() - i,
    {
        let ghost before = path_views(out@);
        assert(views[i as int] == list@[i as int]@);
        if list[i].is_absolute() {
            out.push(list[i].clone());
            assert(path_views(out@) =~= before.push(views[i as int]));
        }
        i += 1;
        assert(views.take(i as int).drop_last() =~= views.take(i - 1));
        assert(views.take(i as int).last() == views[i - 1]);
    }
    assert(views.take(i as int) =~= views);
    out
}

/// The directories that are searched for data: the absolute paths of
/// `XDG_DATA_DIRS`, or `/usr/local/share/` and `/usr/share/` where the
/// variable is not set.
pub fn data_dirs(env: &Environment) -> (dirs: Vec<NativePath>)
    ensures
        path_views(dirs@) == match env.data_dirs {
            Some(list) => absolute_only(path_views(list@)),
            None => seq![
                posix_view("/usr/local/share/".spec_bytes()),
                posix_view("/usr/share/".spec_bytes()),
            ],
        },
{
    match &env.data_dirs {
        Some(list) => keep_absolute(list),
        None => {
            let mut dirs: Vec<NativePath> = Vec::new();
            dirs.push(NativePath::posix("/usr/local/share/"));
            dirs.push(NativePath::posix("/usr/share/"));
            assert(path_views(dirs@) =~= seq![
                posix_view("/usr/local/share/".spec_bytes()),
                posix_view("/usr/share/".spec_bytes()),
            ]);
            dirs
        },
    }
}

/// The directories that are searched for configuration: the absolute paths
/// of `XDG_CONFIG_DIRS`, or `/etc/xdg/` where the variable is not set.
pub fn config_dirs(env: &Environment) -> (dirs: Vec<NativePath>)
    ensures
        path_views(dirs@) == match env.config_dirs {
            Some(list) => absolute_only(path_views(list@)),
            None => seq![posix_view("/etc/xdg/".spec_bytes())],
        },
{
    match &env.config_dirs {
        Some(list) => keep_absolute(list),
        None => {
            let mut dirs: Vec<NativePath> = Vec::new();
            dirs.push(NativePath::posix("/etc/xdg/"));
            assert(path_views(dirs@) =~= seq![
                posix_view("/etc/xdg/".spec_bytes()),
            ]);
            dirs
        },
    }
}

/// Why the runtime directory cannot be used.
#[derive(Clone, Copy, Debug, PartialEq, Eq, Structural)]
pub enum RuntimeDirError {
    /// `XDG_RUNTIME_DIR` is not set to an absolute path.
    Undefined,
    /// The metadata of the directory could not be read.
    Metadata,
    /// The directory belongs to another user: the user asked for, then the
    /// owner found.
    InvalidOwnership(u32, u32),
    /// The permission bits of the directory, given here, are not 0700.
    InvalidAccessMode(u32),
}

/// Owner and mode of a directory, as the system reports them.
#[derive(Clone, Copy, Debug, PartialEq, Eq, Structural)]
pub struct DirectoryMetadata {
    /// The user that owns the directory.
    pub uid: u32,
    /// The mode of the directory: its permission bits, and above them the
    /// bits that say what kind of file it is.
    pub mode: u32,
}

/// The permission bits of a directory that only its owner may read, write
/// and search.
pub const OWNER_ONLY: u32 = 0o700;

/// The bits of a mode that hold the permissions.
pub const PERMISSION_BITS: u32 = 0o7777;

/// The permission bits of `mode`, without the bits for the kind of file.
pub open spec fn permission_bits(mode: u32) -> u32 {
    mode & PERMISSION_BITS
}

/// The bits that say what kind of file a mode belongs to do not count among
/// its permission bits: a directory with the permissions 0700 has them,
/// whatever stands above.
pub proof fn lemma_permission_bits_ignore_kind(kind: u32, bits: u32)
    requires
        bits <= PERMISSION_BITS,
        kind <= 0xfffff,
    ensures
        permission_bits((kind << 12) | bits) == bits,
{
    assert((((kind << 12) | bits) & 0o7777) == bits) by (bit_vector)
        requires
            bits <= 0o7777,
            kind <= 0xfffff,
    ;
}

/// What the check of a runtime directory with `metadata` reports for the
/// user `uid`: unreadable metadata first, then a foreign owner, then
/// permission bits other than 0700.
pub open spec fn runtime_dir_check(metadata: Option<DirectoryMetadata>, uid: u32) -> Result<
    (),
    RuntimeDirError,
> {
    match metadata {
        None => Err(RuntimeDirError::Metadata),
        Some(m) => if m.uid != uid {
            Err(RuntimeDirError::InvalidOwnership(uid, m.uid))
        } else if permission_bits(m.mode) != OWNER_ONLY {
            Err(RuntimeDirError::InvalidAccessMode(permission_bits(m.mode)))
        } else {
            Ok(())
        },
    }
}

/// The directory that `XDG_RUNTIME_DIR` names, before owner and mode are
/// looked at.
pub fn defined_runtime_dir(env: &Environment) -> (res: Result<NativePath, RuntimeDirError>)
    ensures
        match res {
            Ok(dir) => absolute_value(optional_view(env.runtime_dir)) == Some(dir@),
            Err(e) => absolute_value(optional_view(env.runtime_dir)) is None && e
                == RuntimeDirError::Undefined,
        },
{
    match &env.runtime_dir {
        Some(dir) => {
            if dir.is_absolute() {
                Ok(dir.clone())
            } else {
                Err(RuntimeDirError::Undefined)
            }
        },
        None => Err(RuntimeDirError::Undefined),
    }
}

/// The runtime directory, where it is defined, belongs to the user `uid`
/// and has the permission bits 0700. `metadata` is what the caller read of
/// the directory that `defined_runtime_dir` names, or `None` where it could
/// not be read.
pub fn runtime_dir(env: &Environment, metadata: Option<DirectoryMetadata>, uid: u32) -> (res:
    Result<NativePath, RuntimeDirError>)
    ensures
        match res {
            Ok(dir) => absolute_value(optional_view(env.runtime_dir)) == Some(dir@)
                && runtime_dir_check(metadata, uid) is Ok,
            Err(e) => if absolute_value(optional_view(env.runtime_dir)) is None {
                e == RuntimeDirError::Undefined
            } else {
                runtime_dir_check(metadata, uid) == Err::<(), RuntimeDirError>(e)
            },
        },
{
    let dir = match defined_runtime_dir(env) {
        Ok(dir) => dir,
        Err(e) => {
            return Err(e);
        },
    };
    match metadata {
        None => Err(RuntimeDirError::Metadata),
        Some(m) => {
            if m.uid != uid {
                Err(RuntimeDirError::InvalidOwnership(uid, m.uid))
            } else {
                let bits = m.mode & PERMISSION_BITS;
                if bits != OWNER_ONLY {
                    Err(RuntimeDirError::InvalidAccessMode(bits))
                } else {
                    Ok(dir)
                }
            }
        },
    }
}

} // verus!

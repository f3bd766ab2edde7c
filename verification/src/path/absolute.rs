//! Absolute paths: native paths that are absolute and hold no `.` or `..`.

use crate::iri::encode::{file_identifier, file_path, starts_with_device};
use crate::iri::error::{Error, ErrorView};
use crate::iri::{IdentifierView, ResourceIdentifier};
use crate::path::native::{NativePath, PathView};
use crate::path::syntax::{
    components, has_dot_in_body, has_relative_component, holds_relative, is_absolute, PathStyle,
};
use vstd::prelude::*;
use vstd::string::StringExecFns;

verus! {

/// Why a native path is no absolute path.
#[derive(Clone, Copy, Debug, PartialEq, Eq, Structural)]
pub enum TryFromError {
    /// The path has no root, or in the Windows style no prefix.
    NotAbsolute,
    /// The path holds `.` or `..`: as a component, or as a `.` between
    /// separators.
    ContainsRelComponents,
}

impl TryFromError {
    /// The error in words.
    pub fn to_string(&self) -> (text: String)
        ensures
            text@ == match self {
                TryFromError::NotAbsolute => "path not absolute"@,
                TryFromError::ContainsRelComponents =>
                    "contains relative components (i.e. '..' or '.')"@,
            },
    {
        match self {
            TryFromError::NotAbsolute => String::from_str("path not absolute"),
            TryFromError::ContainsRelComponents => String::from_str(
                "contains relative components (i.e. '..' or '.')",
            ),
        }
    }
}

/// Whether the path `bytes` of `style` is absolute and free of `.` and
/// `..`, also of a `.` between separators that is no component.
pub open spec fn is_valid_absolute(style: PathStyle, bytes: Seq<u8>) -> bool {
    is_absolute(style, bytes) && !holds_relative(style, bytes)
}

/// What validating the path `bytes` of `style` reports: an absolute path is
/// asked for first, and then one without `.` and `..`.
pub open spec fn validation(style: PathStyle, bytes: Seq<u8>) -> Result<(), TryFromError> {
    if !is_absolute(style, bytes) {
        Err(TryFromError::NotAbsolute)
    } else if holds_relative(style, bytes) {
        Err(TryFromError::ContainsRelComponents)
    } else {
        Ok(())
    }
}

/// Every relative path is refused as not absolute, every absolute path
/// that holds `.` or `..` anywhere as one that holds relative components,
/// and no other path is refused.
pub proof fn lemma_validation_refuses(style: PathStyle, bytes: Seq<u8>)
    ensures
        !is_absolute(style, bytes) ==> validation(style, bytes) == Err::<(), TryFromError>(
            TryFromError::NotAbsolute,
        ),
        is_absolute(style, bytes) && holds_relative(style, bytes) ==> validation(style, bytes)
            == Err::<(), TryFromError>(TryFromError::ContainsRelComponents),
        is_absolute(style, bytes) && has_relative_component(components(style, bytes))
            ==> validation(style, bytes) == Err::<(), TryFromError>(
            TryFromError::ContainsRelComponents,
        ),
        is_absolute(style, bytes) && has_dot_in_body(style, bytes) ==> validation(style, bytes)
            == Err::<(), TryFromError>(TryFromError::ContainsRelComponents),
        validation(style, bytes) is Ok <==> is_valid_absolute(style, bytes),
{
}

/// Validates `path`.
pub fn validate(path: &NativePath) -> (res: Result<(), TryFromError>)
    ensures
        res == validation(path.style, path.bytes@),
        res is Ok <==> is_valid_absolute(path.style, path.bytes@),
{
    if !path.is_absolute() {
        return Err(TryFromError::NotAbsolute);
    }
    if path.holds_relative() {
        return Err(TryFromError::ContainsRelComponents);
    }
    Ok(())
}

/// An owned absolute path.
#[derive(Debug)]
pub struct AbsolutePathBuf {
    path: NativePath,
}

/// A borrowed absolute path.
#[derive(Clone, Copy, Debug)]
pub struct AbsolutePath<'a> {
    path: &'a NativePath,
}

impl View for AbsolutePathBuf {
    type V = PathView;

    open spec fn view(&self) -> PathView {
        self.as_native()@
    }
}

impl<'a> View for AbsolutePath<'a> {
    type V = PathView;

    open spec fn view(&self) -> PathView {
        self.as_native()@
    }
}

impl AbsolutePathBuf {
    /// The native path that this absolute path is.
    pub closed spec fn as_native(&self) -> NativePath {
        self.path
    }

    /// What holds of every absolute path: it is absolute, and holds
    /// neither `.` nor `..` anywhere.
    pub open spec fn wf(&self) -> bool {
        is_valid_absolute(self.as_native().style, self.as_native().bytes@)
    }

    #[verifier::type_invariant]
    spec fn holds_always(&self) -> bool {
        self.wf()
    }

    /// `path`, which is known to be valid, as an absolute path.
    pub(crate) fn from_valid(path: NativePath) -> (absolute: AbsolutePathBuf)
        requires
            is_valid_absolute(path.style, path.bytes@),
        ensures
            absolute.as_native() == path,
            absolute.wf(),
    {
        AbsolutePathBuf { path }
    }

    /// `path` as an absolute path, if it is one.
    pub fn try_from(path: NativePath) -> (res: Result<AbsolutePathBuf, TryFromError>)
        ensures
            match res {
                Ok(absolute) => validation(path.style, path.bytes@) is Ok && absolute.as_native()
                    == path && absolute.wf(),
                Err(e) => validation(path.style, path.bytes@) == Err::<(), TryFromError>(e),
            },
    {
        match validate(&path) {
            Ok(()) => Ok(AbsolutePathBuf { path }),
            Err(e) => Err(e),
        }
    }

    /// This path, borrowed.
    pub fn to_absolute_path(&self) -> (borrowed: AbsolutePath<'_>)
        ensures
            borrowed.as_native() == self.as_native(),
            borrowed.wf(),
    {
        proof {
            use_type_invariant(self);
        }
        AbsolutePath { path: &self.path }
    }

    /// The native path.
    pub fn to_path(&self) -> (path: &NativePath)
        ensures
            *path == self.as_native(),
            self.wf(),
    {
        proof {
            use_type_invariant(self);
        }
        &self.path
    }

    /// A copy of the native path.
    pub fn to_path_buf(&self) -> (path: NativePath)
        ensures
            path@ == self@,
            self.wf(),
    {
        proof {
            use_type_invariant(self);
        }
        self.path.clone()
    }
}

impl AbsolutePathBuf {
    /// The `file` identifier of this path. Only a path that starts with a
    /// device namespace has none.
    pub fn to_file_iri(&self) -> (res: Result<ResourceIdentifier, Error>)
        ensures
            self.wf(),
            match res {
                Ok(iri) => file_identifier(self.as_native().style, self.as_native().bytes@)
                    == Ok::<IdentifierView, ErrorView>(iri@),
                Err(e) => file_identifier(self.as_native().style, self.as_native().bytes@)
                    == Err::<IdentifierView, ErrorView>(e@) && e@ == ErrorView::UnsupportedPrefix,
            },
            res is Err <==> starts_with_device(
                components(self.as_native().style, self.as_native().bytes@),
            ),
    {
        proof {
            use_type_invariant(self);
        }
        file_path(&self.path)
    }
}

impl Clone for AbsolutePathBuf {
    fn clone(&self) -> (copy: AbsolutePathBuf)
        ensures
            copy@ == self@,
            copy.wf(),
    {
        proof {
            use_type_invariant(self);
        }
        AbsolutePathBuf { path: self.path.clone() }
    }
}

impl<'a> AbsolutePath<'a> {
    /// The native path that this absolute path is.
    pub closed spec fn as_native(&self) -> NativePath {
        *self.path
    }

    /// What holds of every absolute path: it is absolute, and holds
    /// neither `.` nor `..` anywhere.
    pub open spec fn wf(&self) -> bool {
        is_valid_absolute(self.as_native().style, self.as_native().bytes@)
    }

    #[verifier::type_invariant]
    spec fn holds_always(&self) -> bool {
        self.wf()
    }

    /// `path` as an absolute path, if it is one.
    pub fn try_from(path: &'a NativePath) -> (res: Result<AbsolutePath<'a>, TryFromError>)
        ensures
            match res {
                Ok(absolute) => validation(path.style, path.bytes@) is Ok && absolute.as_native()
                    == *path && absolute.wf(),
                Err(e) => validation(path.style, path.bytes@) == Err::<(), TryFromError>(e),
            },
    {
        match validate(path) {
            Ok(()) => Ok(AbsolutePath { path }),
            Err(e) => Err(e),
        }
    }

    /// The native path.
    pub fn to_path(&self) -> (path: &'a NativePath)
        ensures
            *path == self.as_native(),
            self.wf(),
    {
        proof {
            use_type_invariant(self);
        }
        self.path
    }

    /// A copy of the native path.
    pub fn to_path_buf(&self) -> (path: NativePath)
        ensures
            path@ == self@,
            self.wf(),
    {
        proof {
            use_type_invariant(self);
        }
        self.path.clone()
    }

    /// An owned copy of this path.
    pub fn to_absolute_path_buf(&self) -> (owned: AbsolutePathBuf)
        ensures
            owned@ == self@,
            owned.wf(),
    {
        proof {
            use_type_invariant(self);
        }
        AbsolutePathBuf { path: self.path.clone() }
    }
}

/// Native paths that can be taken as borrowed absolute paths.
pub trait AbsolutePathExt {
    /// What this value is as a native path.
    spec fn native(&self) -> NativePath;

    /// This path as an absolute path, if it is one.
    fn to_absolute_path(&self) -> (res: Result<AbsolutePath<'_>, TryFromError>)
        ensures
            match res {
                Ok(absolute) => validation(self.native().style, self.native().bytes@) is Ok
                    && absolute.as_native() == self.native() && absolute.wf(),
                Err(e) => validation(self.native().style, self.native().bytes@) == Err::<
                    (),
                    TryFromError,
                >(e),
            },
    ;
}

impl AbsolutePathExt for NativePath {
    open spec fn native(&self) -> NativePath {
        *self
    }

    fn to_absolute_path(&self) -> (res: Result<AbsolutePath<'_>, TryFromError>) {
        AbsolutePath::try_from(self)
    }
}

/// Native paths that can be copied into owned absolute paths.
pub trait AbsolutePathBufExt {
    /// What this value is as a native path.
    spec fn native(&self) -> NativePath;

    /// A copy of this path as an absolute path, if it is one.
    fn to_absolute_path_buf(&self) -> (res: Result<AbsolutePathBuf, TryFromError>)
        ensures
            match res {
                Ok(absolute) => validation(self.native().style, self.native().bytes@) is Ok
                    && absolute@ == self.native()@ && absolute.wf(),
                Err(e) => validation(self.native().style, self.native().bytes@) == Err::<
                    (),
                    TryFromError,
                >(e),
            },
    ;
}

impl AbsolutePathBufExt for NativePath {
    open spec fn native(&self) -> NativePath {
        *self
    }

    fn to_absolute_path_buf(&self) -> (res: Result<AbsolutePathBuf, TryFromError>) {
        AbsolutePathBuf::try_from(self.clone())
    }
}

} // verus!

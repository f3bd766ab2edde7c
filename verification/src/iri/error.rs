//! Why a conversion between paths and identifiers fails.

use vstd::prelude::*;
use vstd::string::StringExecFns;

verus! {

/// The schemes that a caller can resolve.
#[derive(Clone, Copy, Debug, PartialEq, Eq, Structural)]
pub enum SupportedSchemes {
    /// `file` only.
    File,
    /// `file` and `container`.
    FileAndContainer,
}

impl SupportedSchemes {
    /// The names of the schemes.
    pub fn names(&self) -> (names: Vec<&'static str>)
        ensures
            names@ == match self {
                SupportedSchemes::File => seq!["file"],
                SupportedSchemes::FileAndContainer => seq!["file", "container"],
            },
    {
        match self {
            SupportedSchemes::File => {
                let names: Vec<&'static str> = vec!["file"];
                assert(names@ =~= seq!["file"]);
                names
            },
            SupportedSchemes::FileAndContainer => {
                let names: Vec<&'static str> = vec!["file", "container"];
                assert(names@ =~= seq!["file", "container"]);
                names
            },
        }
    }
}

/// A failed conversion, as contracts speak of it.
pub ghost enum ErrorView {
    InvalidUtf8,
    InvalidComponent,
    UnsupportedPrefix,
    NotAbsolute,
    InvalidIri,
    EmptyIri,
    InvalidScheme(Seq<u8>, SupportedSchemes),
    UnresolvableContainer,
}

/// A failed conversion between a path and an identifier.
#[derive(Clone, Debug, PartialEq, Eq)]
pub enum Error {
    /// A component could not be read as text where text was asked for.
    InvalidUtf8,
    /// The path holds `.` or `..`: as a component, or as a `.` between
    /// separators.
    InvalidComponent,
    /// The path starts with a device namespace, which no identifier names.
    UnsupportedPrefix,
    /// The path is relative.
    NotAbsolute,
    /// The text is no identifier.
    InvalidIri,
    /// The identifier has no segments.
    EmptyIri,
    /// The scheme, given first, is none of those that the caller supports.
    InvalidScheme(Vec<u8>, SupportedSchemes),
    /// The scheme is `container`, and no container root has been set.
    UnresolvableContainer,
}

impl View for Error {
    type V = ErrorView;

    open spec fn view(&self) -> ErrorView {
        match self {
            Error::InvalidUtf8 => ErrorView::InvalidUtf8,
            Error::InvalidComponent => ErrorView::InvalidComponent,
            Error::UnsupportedPrefix => ErrorView::UnsupportedPrefix,
            Error::NotAbsolute => ErrorView::NotAbsolute,
            Error::InvalidIri => ErrorView::InvalidIri,
            Error::EmptyIri => ErrorView::EmptyIri,
            Error::InvalidScheme(got, supported) => ErrorView::InvalidScheme(got@, *supported),
            Error::UnresolvableContainer => ErrorView::UnresolvableContainer,
        }
    }
}

impl Error {
    /// The error in words, without the scheme that an `InvalidScheme` names.
    pub fn to_string(&self) -> (text: String)
        ensures
            text@ == match self {
                Error::InvalidUtf8 =>
                    "Could not convert path component to UTF-8 representation."@,
                Error::InvalidComponent =>
                    "Path must not contain parent or current directory components (e.g. `.` or `..`)"@,
                Error::UnsupportedPrefix => "Unsupported prefix."@,
                Error::NotAbsolute => "Relative paths cannot be converted into file:// IRIs."@,
                Error::InvalidIri => "Failed to parse input as an IRI."@,
                Error::EmptyIri => "IRI is empty"@,
                Error::InvalidScheme(_, _) => "IRI does not have a supported scheme."@,
                Error::UnresolvableContainer =>
                    "Could not resolve container to path: no path set for container."@,
            },
    {
        match self {
            Error::InvalidUtf8 => String::from_str(
                "Could not convert path component to UTF-8 representation.",
            ),
            Error::InvalidComponent => String::from_str(
                "Path must not contain parent or current directory components (e.g. `.` or `..`)",
            ),
            Error::UnsupportedPrefix => String::from_str("Unsupported prefix."),
            Error::NotAbsolute => String::from_str(
                "Relative paths cannot be converted into file:// IRIs.",
            ),
            Error::InvalidIri => String::from_str("Failed to parse input as an IRI."),
            Error::EmptyIri => String::from_str("IRI is empty"),
            Error::InvalidScheme(_, _) => String::from_str(
                "IRI does not have a supported scheme.",
            ),
            Error::UnresolvableContainer => String::from_str(
                "Could not resolve container to path: no path set for container.",
            ),
        }
    }
}

} // verus!

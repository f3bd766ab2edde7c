//! Identifiers for absolute paths, and the conversion in both directions.
//!
//! An identifier names a location by a scheme, `file` or `container`, and a
//! list of percent-encoded segments. It is written `scheme:/a/b/c`; an
//! identifier made from a POSIX path carries the empty authority that stands
//! for the root, and is written `file:///a/b/c`.

pub mod below;
pub mod builder;
pub mod encode;
pub mod error;
pub mod ext;
pub mod plain;
pub mod resolve;
pub mod round_trip;
pub mod text;

use vstd::prelude::*;

verus! {

/// An identifier, as contracts speak of it.
pub ghost struct IdentifierView {
    /// The scheme, without the colon.
    pub scheme: Seq<u8>,
    /// What stands between `//` and the path, if `//` is there.
    pub authority: Option<Seq<u8>>,
    /// The segments of the path, still percent-encoded.
    pub segments: Seq<Seq<u8>>,
    /// Whether a `/` follows the last segment.
    pub open: bool,
}

/// A scheme-qualified, percent-encoded name of a location.
#[derive(Debug, PartialEq, Eq)]
pub struct ResourceIdentifier {
    /// The scheme, without the colon.
    pub scheme: Vec<u8>,
    /// What stands between `//` and the path, if `//` is there.
    pub authority: Option<Vec<u8>>,
    /// The segments of the path, still percent-encoded.
    pub segments: Vec<Vec<u8>>,
    /// Whether a `/` follows the last segment.
    pub open: bool,
}

/// The views of a list of byte strings.
pub open spec fn byte_views(list: Seq<Vec<u8>>) -> Seq<Seq<u8>> {
    list.map_values(|v: Vec<u8>| v@)
}

impl View for ResourceIdentifier {
    type V = IdentifierView;

    open spec fn view(&self) -> IdentifierView {
        IdentifierView {
            scheme: self.scheme@,
            authority: match self.authority {
                Some(a) => Some(a@),
                None => None,
            },
            segments: byte_views(self.segments@),
            open: self.open,
        }
    }
}

/// The bytes of `file`.
pub open spec fn file_scheme() -> Seq<u8> {
    seq![0x66u8, 0x69u8, 0x6cu8, 0x65u8]
}

/// The bytes of `container`.
pub open spec fn container_scheme() -> Seq<u8> {
    seq![0x63u8, 0x6fu8, 0x6eu8, 0x74u8, 0x61u8, 0x69u8, 0x6eu8, 0x65u8, 0x72u8]
}

/// The scheme `file`.
pub fn file_scheme_bytes() -> (scheme: Vec<u8>)
    ensures
        scheme@ == file_scheme(),
{
    let scheme: Vec<u8> = vec![0x66u8, 0x69u8, 0x6cu8, 0x65u8];
    assert(scheme@ =~= file_scheme());
    scheme
}

/// The scheme `container`.
pub fn container_scheme_bytes() -> (scheme: Vec<u8>)
    ensures
        scheme@ == container_scheme(),
{
    let scheme: Vec<u8> = vec![
        0x63u8,
        0x6fu8,
        0x6eu8,
        0x74u8,
        0x61u8,
        0x69u8,
        0x6eu8,
        0x65u8,
        0x72u8,
    ];
    assert(scheme@ =~= container_scheme());
    scheme
}

impl Clone for ResourceIdentifier {
    fn clone(&self) -> (copy: ResourceIdentifier)
        ensures
            copy@ == self@,
    {
        let mut segments: Vec<Vec<u8>> = Vec::new();
        let mut i: usize = 0;
        while i < self.segments.len()
            invariant
                i <= self.segments@.len(),
                byte_views(segments@) == byte_views(self.segments@).take(i as int),
            decreases self.segments@.len() - i,
        {
            let segment = self.segments[i].clone();
            assert(segment@ == self.segments@[i as int]@);
            let ghost before = byte_views(segments@);
            segments.push(segment);
            i += 1;
            assert(byte_views(segments@) =~= before.push(segment@));
            assert(byte_views(segments@) =~= byte_views(self.segments@).take(i as int));
        }
        assert(byte_views(self.segments@).take(i as int) =~= byte_views(self.segments@));
        let authority = match &self.authority {
            Some(a) => Some(a.clone()),
            None => None,
        };
        ResourceIdentifier { scheme: self.scheme.clone(), authority, segments, open: self.open }
    }
}

} // verus!

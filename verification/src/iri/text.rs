//! Identifiers as text.
//!
//! An identifier is written as its scheme and `:`, then `//` and the
//! authority if it has one, then each segment behind a `/`, and a last `/`
//! if it is open. Without segments its path is written `/`.

use crate::bytes::{append, equal};
use crate::iri::error::{Error, ErrorView};
use crate::iri::resolve::assembled;
use crate::iri::{byte_views, IdentifierView, ResourceIdentifier};
use crate::path::syntax::{COLON, SLASH};
use vstd::prelude::*;

verus! {

/// The path of an identifier with `segments`, as it is written.
pub open spec fn rendered_path(segments: Seq<Seq<u8>>, open: bool) -> Seq<u8> {
    if segments.len() == 0 {
        seq![SLASH]
    } else if open {
        assembled(SLASH, Seq::empty(), segments) + seq![SLASH]
    } else {
        assembled(SLASH, Seq::empty(), segments)
    }
}

/// `//` and the authority, if there is one.
pub open spec fn rendered_authority(authority: Option<Seq<u8>>) -> Seq<u8> {
    match authority {
        Some(a) => seq![SLASH, SLASH] + a,
        None => Seq::empty(),
    }
}

/// The identifier `iri` as it is written.
pub open spec fn rendered(iri: IdentifierView) -> Seq<u8> {
    iri.scheme + seq![COLON] + rendered_authority(iri.authority) + rendered_path(
        iri.segments,
        iri.open,
    )
}

/// The byte `[`, which opens an address literal in an authority and
/// stands nowhere else in an identifier.
pub const OPEN_BRACKET: u8 = 0x5b;

/// Whether `[` is among `text`.
pub open spec fn has_bracket(text: Seq<u8>) -> bool {
    exists|i: int| 0 <= i < text.len() && #[trigger] text[i] == OPEN_BRACKET
}

/// What the parser of the crate `iref` makes of `text`: the parts of the
/// identifier, or nothing where `text` is no identifier with a scheme.
pub uninterp spec fn iri_parse(text: Seq<u8>) -> Option<IdentifierView>;

/// `iref::IriBuf::new`, and the parts of what it returns: the scheme, the
/// authority, the segments of the path in order, and whether the path ends
/// in `/`. Query and fragment are left out, and so is the reason for which
/// a text is refused. The contract gives the outcome a name and says no
/// more of it. A text with `[` is not handed over: only there the parser
/// reads an address literal, and on some of those it fails an assertion.
#[verifier::external_body]
fn parse_with_iref(text: &[u8]) -> (res: Option<ResourceIdentifier>)
    requires
        !has_bracket(text@),
    ensures
        match res {
            Some(iri) => iri_parse(text@) == Some(iri@),
            None => iri_parse(text@) is None,
        },
{
    let iri = iref::IriBuf::new(text).ok()?;
    Some(
        ResourceIdentifier {
            scheme: iri.scheme().as_bytes().to_vec(),
            authority: iri.authority().map(|a| a.as_bytes().to_vec()),
            segments: iri.path().into_iter().map(|s| s.as_bytes().to_vec()).collect(),
            open: iri.path().is_open(),
        },
    )
}

/// What reading `text` as an identifier gives: a text with `[` is refused,
/// and every other is what the parser makes of it.
pub open spec fn parsed(text: Seq<u8>) -> Result<IdentifierView, ErrorView> {
    if has_bracket(text) {
        Err(ErrorView::InvalidIri)
    } else {
        match iri_parse(text) {
            Some(iri) => Ok(iri),
            None => Err(ErrorView::InvalidIri),
        }
    }
}

/// Whether the text of `iri` reads back as `iri` itself.
pub open spec fn reads_back(iri: IdentifierView) -> bool {
    parsed(rendered(iri)) == Ok::<IdentifierView, ErrorView>(iri)
}

/// Whether `[` is among `text`.
fn contains_bracket(text: &[u8]) -> (found: bool)
    ensures
        found == has_bracket(text@),
{
    let mut i: usize = 0;
    while i < text.len()
        invariant
            i <= text@.len(),
            forall|k: int| 0 <= k < i ==> #[trigger] text@[k] != OPEN_BRACKET,
        decreases text@.len() - i,
    {
        if text[i] == OPEN_BRACKET {
            return true;
        }
        i += 1;
    }
    false
}

/// Whether `a` and `b` hold the same byte strings in the same order.
fn same_segments(a: &Vec<Vec<u8>>, b: &Vec<Vec<u8>>) -> (same: bool)
    ensures
        same == (byte_views(a@) == byte_views(b@)),
{
    if a.len() != b.len() {
        assert(byte_views(a@).len() != byte_views(b@).len());
        return false;
    }
    let mut i: usize = 0;
    while i < a.len()
        invariant
            i <= a@.len(),
            a@.len() == b@.len(),
            forall|k: int| 0 <= k < i ==> (#[trigger] a@[k])@ == b@[k]@,
        decreases a@.len() - i,
    {
        if !equal(a[i].as_slice(), b[i].as_slice()) {
            assert(byte_views(a@)[i as int] == a@[i as int]@);
            assert(byte_views(b@)[i as int] == b@[i as int]@);
            return false;
        }
        i += 1;
    }
    assert(byte_views(a@) =~= byte_views(b@));
    true
}

/// Whether `a` and `b` are the same identifier.
pub fn same_identifier(a: &ResourceIdentifier, b: &ResourceIdentifier) -> (same: bool)
    ensures
        same == (a@ == b@),
{
    let same_authority = match (&a.authority, &b.authority) {
        (Some(x), Some(y)) => equal(x.as_slice(), y.as_slice()),
        (None, None) => true,
        _ => false,
    };
    same_authority && a.open == b.open && equal(a.scheme.as_slice(), b.scheme.as_slice())
        && same_segments(&a.segments, &b.segments)
}

impl ResourceIdentifier {
    /// This identifier as it is written.
    pub fn to_bytes(&self) -> (text: Vec<u8>)
        ensures
            text@ == rendered(self@),
    {
        let mut text: Vec<u8> = self.scheme.clone();
        text.push(COLON);
        match &self.authority {
            Some(a) => {
                text.push(SLASH);
                text.push(SLASH);
                append(&mut text, a.as_slice());
            },
            None => {},
        }
        assert(text@ =~= self@.scheme + seq![COLON] + rendered_authority(self@.authority));
        let ghost head = text@;
        let ghost segments = byte_views(self.segments@);
        if self.segments.len() == 0 {
            text.push(SLASH);
            assert(text@ =~= rendered(self@));
            return text;
        }
        let mut i: usize = 0;
        assert(segments.take(0) =~= Seq::<Seq<u8>>::empty());
        assert(text@ =~= head + assembled(SLASH, Seq::empty(), segments.take(0)));
        while i < self.segments.len()
            invariant
                i <= self.segments@.len(),
                segments == byte_views(self.segments@),
                text@ == head + assembled(SLASH, Seq::empty(), segments.take(i as int)),
            decreases self.segments@.len() - i,
        {
            let ghost before = assembled(SLASH, Seq::empty(), segments.take(i as int));
            text.push(SLASH);
            append(&mut text, self.segments[i].as_slice());
            i += 1;
            assert(segments.take(i as int).drop_last() =~= segments.take(i - 1));
            assert(segments.take(i as int).last() == self.segments@[i - 1]@);
            assert(text@ =~= head + (before + seq![SLASH] + self.segments@[i - 1]@));
        }
        assert(segments.take(i as int) =~= segments);
        if self.open {
            text.push(SLASH);
        }
        assert(text@ =~= rendered(self@));
        text
    }

    /// Reads `text` as an identifier.
    ///
    /// A text with `[` is refused: an identifier holds that byte only in
    /// an address literal of its authority, which neither scheme of this
    /// library has. Every other text is handed to the parser of the crate
    /// `iref`; what comes back is known here only as `iri_parse(text)`.
    pub fn parse(text: &[u8]) -> (res: Result<ResourceIdentifier, Error>)
        ensures
            match res {
                Ok(iri) => parsed(text@) == Ok::<IdentifierView, ErrorView>(iri@),
                Err(e) => parsed(text@) == Err::<IdentifierView, ErrorView>(e@),
            },
            has_bracket(text@) ==> res is Err,
    {
        if contains_bracket(text) {
            return Err(Error::InvalidIri);
        }
        match parse_with_iref(text) {
            Some(iri) => Ok(iri),
            None => Err(Error::InvalidIri),
        }
    }

    /// This identifier, where its text reads back as the identifier
    /// itself, and else `InvalidIri`: a segment that holds what no segment
    /// may hold, such as a space, `?` or `#`, makes the text no identifier
    /// or the identifier of another location.
    pub fn checked(&self) -> (res: Result<ResourceIdentifier, Error>)
        ensures
            match res {
                Ok(iri) => iri@ == self@ && reads_back(self@),
                Err(e) => e@ == ErrorView::InvalidIri && !reads_back(self@),
            },
    {
        let text = self.to_bytes();
        match ResourceIdentifier::parse(text.as_slice()) {
            Ok(iri) => {
                if same_identifier(&iri, self) {
                    Ok(iri)
                } else {
                    Err(Error::InvalidIri)
                }
            },
            Err(_) => Err(Error::InvalidIri),
        }
    }
}

} // verus!

//! Identifiers of the scheme `container`, built from the names of
//! directories.

use crate::bytes::copy_range;
use crate::iri::error::{Error, ErrorView};
use crate::iri::text::reads_back;
use crate::iri::{
    byte_views, container_scheme, container_scheme_bytes, IdentifierView, ResourceIdentifier,
};
use crate::path::native::piece_end;
use crate::path::syntax::{piece_len, Separators};
use vstd::prelude::*;

verus! {

/// The pieces of `text` between its `/`, empty ones too. A text without
/// `/` is one piece.
pub open spec fn split_at_slash(text: Seq<u8>) -> Seq<Seq<u8>>
    decreases text.len(),
{
    let n = piece_len(Separators::Slash, text) as int;
    if n < text.len() {
        seq![text.take(n)] + split_at_slash(text.skip(n + 1))
    } else {
        seq![text]
    }
}

/// The identifier of the directory with `segments` below the container
/// root: the scheme is `container`, there is no authority, and the path is
/// open.
pub open spec fn container_directory(segments: Seq<Seq<u8>>) -> IdentifierView {
    IdentifierView { scheme: container_scheme(), authority: None, segments, open: true }
}

/// The pieces of `text` between its `/`, appended to `segments`.
pub fn push_split(segments: &mut Vec<Vec<u8>>, text: &[u8])
    ensures
        byte_views(final(segments)@) == byte_views(old(segments)@) + split_at_slash(text@),
{
    let ghost before = byte_views(segments@);
    let mut i: usize = 0;
    let mut done = false;
    assert(text@.skip(0) =~= text@);
    while !done
        invariant
            i <= text@.len(),
            !done ==> byte_views(segments@) + split_at_slash(text@.skip(i as int)) == before
                + split_at_slash(text@),
            done ==> byte_views(segments@) == before + split_at_slash(text@),
        decreases text@.len() - i + if done { 0int } else { 1int },
    {
        let end = piece_end(Separators::Slash, text, i);
        let ghost rest = text@.skip(i as int);
        let ghost so_far = byte_views(segments@);
        let piece = copy_range(text, i, end);
        assert(piece@ =~= rest.take(end - i));
        segments.push(piece);
        assert(byte_views(segments@) =~= so_far.push(piece@));
        if end < text.len() {
            assert(rest.skip(end - i + 1) =~= text@.skip(end + 1));
            assert(split_at_slash(rest) =~= seq![piece@] + split_at_slash(text@.skip(end + 1)));
            assert(byte_views(segments@) + split_at_slash(text@.skip(end + 1)) =~= so_far
                + split_at_slash(rest));
            i = end + 1;
        } else {
            assert(rest.take(end - i) =~= rest);
            assert(split_at_slash(rest) =~= seq![piece@]);
            assert(byte_views(segments@) =~= so_far + split_at_slash(rest));
            done = true;
        }
    }
}

/// The identifier of the directory with `segments` below the container
/// root, where its text reads back as that identifier, and else
/// `InvalidIri`.
pub fn container_directory_iri(segments: Vec<Vec<u8>>) -> (res: Result<ResourceIdentifier, Error>)
    ensures
        match res {
            Ok(iri) => iri@ == container_directory(byte_views(segments@)) && reads_back(iri@),
            Err(e) => e@ == ErrorView::InvalidIri && !reads_back(
                container_directory(byte_views(segments@)),
            ),
        },
{
    let built = ResourceIdentifier {
        scheme: container_scheme_bytes(),
        authority: None,
        segments,
        open: true,
    };
    built.checked()
}

} // verus!

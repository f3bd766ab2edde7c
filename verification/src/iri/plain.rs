//! What bytes an identifier made from a path can hold.

use crate::iri::encode::{component_segments, file_identifier, file_segments};
use crate::path::syntax::{
    body_components, body_separators, body_start, components, drive_at, head_components,
    is_ascii_letter, lemma_body_components_shape, ComponentView, PathStyle, PrefixView, COLON,
};
use crate::percent::{is_alphanumeric, lemma_encoded_is_safe, PERCENT};
use vstd::prelude::*;

verus! {

/// Whether every byte of `segment` is an ASCII letter, a digit, `%` or `:`.
pub open spec fn is_plain_segment(segment: Seq<u8>) -> bool {
    forall|i: int|
        0 <= i < segment.len() ==> is_alphanumeric(#[trigger] segment[i]) || segment[i] == PERCENT
            || segment[i] == COLON
}

/// Whether the drive of `c`, if it is one, is an ASCII letter.
pub open spec fn has_letter_drive(c: ComponentView) -> bool {
    match c {
        ComponentView::Prefix(PrefixView::Disk(d)) => is_ascii_letter(d),
        ComponentView::Prefix(PrefixView::VerbatimDisk(d)) => is_ascii_letter(d),
        _ => true,
    }
}

/// The segments of a component whose drive is a letter are plain.
pub proof fn lemma_component_segments_are_plain(c: ComponentView)
    requires
        has_letter_drive(c),
    ensures
        forall|k: int|
            0 <= k < component_segments(c).len() ==> is_plain_segment(
                #[trigger] component_segments(c)[k],
            ),
{
    match c {
        ComponentView::Prefix(PrefixView::Verbatim(name)) => {
            lemma_encoded_is_safe(name);
        },
        ComponentView::Prefix(PrefixView::VerbatimUNC(server, share)) => {
            lemma_encoded_is_safe(server);
            lemma_encoded_is_safe(share);
        },
        ComponentView::Prefix(PrefixView::UNC(server, share)) => {
            lemma_encoded_is_safe(server);
            lemma_encoded_is_safe(share);
        },
        ComponentView::Normal(name) => {
            lemma_encoded_is_safe(name);
        },
        _ => {},
    }
}

/// The segments of components whose drives are letters are plain.
pub proof fn lemma_file_segments_are_plain(list: Seq<ComponentView>)
    requires
        forall|k: int| 0 <= k < list.len() ==> has_letter_drive(#[trigger] list[k]),
    ensures
        forall|k: int|
            0 <= k < file_segments(list).len() ==> is_plain_segment(
                #[trigger] file_segments(list)[k],
            ),
    decreases list.len(),
{
    if list.len() > 0 {
        let before = list.drop_last();
        assert forall|k: int| 0 <= k < before.len() implies has_letter_drive(
            #[trigger] before[k],
        ) by {
            assert(before[k] == list[k]);
        }
        lemma_file_segments_are_plain(before);
        lemma_component_segments_are_plain(list.last());
        let head = file_segments(before);
        let tail = component_segments(list.last());
        assert forall|k: int| 0 <= k < (head + tail).len() implies is_plain_segment(
            #[trigger] (head + tail)[k],
        ) by {
            if k >= head.len() {
                assert((head + tail)[k] == tail[k - head.len()]);
            }
        }
    }
}

/// The drive of a path, where its prefix holds one, is an ASCII letter.
pub proof fn lemma_components_have_letter_drives(style: PathStyle, bytes: Seq<u8>)
    ensures
        forall|k: int|
            0 <= k < components(style, bytes).len() ==> has_letter_drive(
                #[trigger] components(style, bytes)[k],
            ),
{
    let head = head_components(style, bytes);
    let set = body_separators(style, bytes);
    let body = body_components(set, bytes.skip(body_start(style, bytes) as int));
    let list = components(style, bytes);
    lemma_body_components_shape(set, bytes.skip(body_start(style, bytes) as int));
    assert forall|k: int| 0 <= k < list.len() implies has_letter_drive(#[trigger] list[k]) by {
        if k < head.len() {
            assert(list[k] == head[k]);
            if head[k] is Prefix {
                assert(k == 0);
                assert(drive_at(bytes, 0) is Some ==> is_ascii_letter(drive_at(bytes, 0)->Some_0));
                assert(drive_at(bytes, 4) is Some ==> is_ascii_letter(drive_at(bytes, 4)->Some_0));
            }
        } else {
            assert(list[k] == body[k - head.len()]);
        }
    }
}

/// In the identifier of a path every byte of every segment is an ASCII
/// letter, a digit, `%` or `:`: a space, a separator or a byte above 0x7f of
/// the path stands there escaped.
pub proof fn lemma_identifier_is_plain(style: PathStyle, bytes: Seq<u8>)
    ensures
        file_identifier(style, bytes) matches Ok(iri) ==> forall|k: int|
            0 <= k < iri.segments.len() ==> is_plain_segment(#[trigger] iri.segments[k]),
{
    lemma_components_have_letter_drives(style, bytes);
    lemma_file_segments_are_plain(components(style, bytes));
}

} // verus!

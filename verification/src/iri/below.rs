//! Where the path of a `container` identifier lies.

use crate::iri::resolve::{assembled, decoded_segments, resolved_container};
use crate::iri::IdentifierView;
use crate::path::absolute::is_valid_absolute;
use crate::path::join::{is_apart, is_plain_base, lemma_tail_adds_components};
use crate::path::syntax::{
    components, main_separator, separates, style_separators, PathStyle,
};
use vstd::prelude::*;

verus! {

/// Parts put together behind `start` are `start` and what the parts alone
/// give, and that is empty or starts with the separator.
pub proof fn lemma_assembled_behind(separator: u8, start: Seq<u8>, parts: Seq<Seq<u8>>)
    ensures
        assembled(separator, start, parts) == start + assembled(
            separator,
            Seq::empty(),
            parts,
        ),
        parts.len() == 0 ==> assembled(separator, Seq::empty(), parts).len() == 0,
        parts.len() > 0 ==> assembled(separator, Seq::empty(), parts).len() > 0 && assembled(
            separator,
            Seq::empty(),
            parts,
        )[0] == separator,
    decreases parts.len(),
{
    let alone = assembled(separator, Seq::<u8>::empty(), parts);
    if parts.len() == 0 {
        assert(start + alone =~= start);
    } else {
        let before = parts.drop_last();
        lemma_assembled_behind(separator, start, before);
        let shorter = assembled(separator, Seq::<u8>::empty(), before);
        assert(alone == shorter + seq![separator] + parts.last());
        assert(assembled(separator, start, parts) =~= start + alone);
        if before.len() == 0 {
            assert(alone[0] == separator);
        } else {
            assert(alone[0] == shorter[0]);
        }
    }
}

/// The path that a `container` identifier names lies below the container
/// root: the components of the root come first in it, unchanged. This
/// holds of every root that is absolute with no prefix but a plain drive,
/// whatever the segments decode to; a path that is named holds no `.` and
/// no `..` behind them either.
pub proof fn lemma_container_stays_below(style: PathStyle, root: Seq<u8>, iri: IdentifierView)
    requires
        is_plain_base(style, root),
    ensures
        resolved_container(style, root, iri) matches Ok(path) ==> {
            &&& is_valid_absolute(style, path)
            &&& components(style, path).take(components(style, root).len() as int)
                == components(style, root)
            &&& path == root + assembled(
                main_separator(style),
                Seq::empty(),
                decoded_segments(iri.segments),
            )
        },
{
    let set = style_separators(style);
    let separator = main_separator(style);
    let parts = decoded_segments(iri.segments);
    let tail = assembled(separator, Seq::<u8>::empty(), parts);
    lemma_assembled_behind(separator, root, parts);
    assert(separates(set, separator));
    assert(is_apart(set, root, tail));
    lemma_tail_adds_components(style, root, tail);
    let before = components(style, root);
    let after = components(style, root + tail);
    assert(after.take(before.len() as int) =~= before);
}

} // verus!

//! What appending to an absolute path gives.

use crate::path::absolute::is_valid_absolute;
use crate::path::syntax::{
    body_components, body_separators, body_start, components, drive_at, has_dot_in_body,
    has_dot_piece, has_physical_root, has_relative_component, has_root, head_components,
    is_absolute, joined, lemma_body_components_concat, lemma_body_components_shape,
    lemma_body_components_trailing_separator, lemma_dot_piece_concat,
    lemma_dot_piece_trailing_separator, main_separator, needs_separator, prefix_of, separates,
    style_separators, windows_prefix, ComponentView, PathStyle, Separators,
};
use vstd::prelude::*;

verus! {

/// The bases of which the laws below speak: absolute paths with no prefix
/// but a plain drive.
pub open spec fn is_plain_base(style: PathStyle, base: Seq<u8>) -> bool {
    &&& is_absolute(style, base)
    &&& match prefix_of(style, base) {
        Some(p) => p.prefix is Disk,
        None => true,
    }
}

/// Whether `other` has neither prefix nor root.
pub open spec fn is_purely_relative(style: PathStyle, other: Seq<u8>) -> bool {
    prefix_of(style, other) is None && !has_root(style, other)
}

/// Whether `..` is among `list`.
pub open spec fn has_parent_dir(list: Seq<ComponentView>) -> bool {
    exists|i: int| 0 <= i < list.len() && #[trigger] list[i] is ParentDir
}

/// Whether `tail` can stand behind `base` without running into its last
/// name: `tail` is empty or starts with a separator, or `base` ends in one.
pub open spec fn is_apart(set: Separators, base: Seq<u8>, tail: Seq<u8>) -> bool {
    tail.len() == 0 || separates(set, tail[0]) || (base.len() > 0 && separates(set, base.last()))
}

/// A separator at the start of a text adds no component and no `.`.
pub proof fn lemma_leading_separator(set: Separators, separator: u8, rest: Seq<u8>)
    requires
        separates(set, separator),
    ensures
        body_components(set, seq![separator] + rest) == body_components(set, rest),
        has_dot_piece(set, seq![separator] + rest) == has_dot_piece(set, rest),
{
    let none = Seq::<u8>::empty();
    assert(none.push(separator) =~= seq![separator]);
    lemma_body_components_trailing_separator(set, none, separator);
    lemma_body_components_concat(set, seq![separator], rest);
    lemma_dot_piece_trailing_separator(set, none, separator);
    lemma_dot_piece_concat(set, seq![separator], rest);
    assert(body_components(set, none) =~= Seq::<ComponentView>::empty());
    assert(body_components(set, seq![separator] + rest) =~= body_components(set, rest));
}

/// What stands behind an absolute base, apart from its last name, adds its
/// components to those of the base and changes none of them.
pub proof fn lemma_tail_adds_components(style: PathStyle, base: Seq<u8>, tail: Seq<u8>)
    requires
        is_plain_base(style, base),
        is_apart(style_separators(style), base, tail),
    ensures
        is_plain_base(style, base + tail),
        components(style, base + tail) == components(style, base) + body_components(
            style_separators(style),
            tail,
        ),
        has_dot_in_body(style, base + tail) == (has_dot_in_body(style, base) || has_dot_piece(
            style_separators(style),
            tail,
        )),
{
    let set = style_separators(style);
    let whole = base + tail;
    let start = body_start(style, base) as int;
    let body = base.skip(start);
    assert(body_separators(style, base) == set);
    assert(has_physical_root(style, base));
    assert(base.len() >= start >= 1);
    assert(forall|i: int| 0 <= i < base.len() ==> whole[i] == base[i]);
    match style {
        PathStyle::Posix => {},
        PathStyle::Windows => {
            assert(drive_at(whole, 0) == drive_at(base, 0));
            assert(windows_prefix(whole) == windows_prefix(base));
        },
    }
    assert(prefix_of(style, whole) == prefix_of(style, base));
    assert(has_physical_root(style, whole));
    assert(body_start(style, whole) == start);
    assert(head_components(style, whole) == head_components(style, base));
    assert(whole.skip(start) =~= body + tail);
    if tail.len() == 0 {
        assert(body + tail =~= body);
        assert(body_components(set, tail) =~= Seq::<ComponentView>::empty());
        assert(!has_dot_piece(set, tail));
    } else if body.len() == 0 || separates(set, body.last()) {
        lemma_body_components_concat(set, body, tail);
        lemma_dot_piece_concat(set, body, tail);
    } else {
        assert(body.last() == base.last());
        let separator = tail[0];
        let rest = tail.skip(1);
        let closed = body.push(separator);
        assert(tail =~= seq![separator] + rest);
        assert(body + tail =~= closed + rest);
        lemma_body_components_trailing_separator(set, body, separator);
        lemma_body_components_concat(set, closed, rest);
        lemma_dot_piece_trailing_separator(set, body, separator);
        lemma_dot_piece_concat(set, closed, rest);
        lemma_leading_separator(set, separator, rest);
    }
    assert(components(style, whole) =~= components(style, base) + body_components(set, tail));
}

/// Joining a path without prefix and root to an absolute base keeps the
/// components of the base and adds those of the path, the leading `.` of
/// the path left out.
pub proof fn lemma_join_adds_components(style: PathStyle, base: Seq<u8>, other: Seq<u8>)
    requires
        is_plain_base(style, base),
        is_purely_relative(style, other),
    ensures
        is_plain_base(style, joined(style, base, other)),
        components(style, joined(style, base, other)) == components(style, base)
            + body_components(style_separators(style), other),
        has_dot_in_body(style, joined(style, base, other)) == (has_dot_in_body(style, base)
            || has_dot_piece(style_separators(style), other)),
{
    let set = style_separators(style);
    let separator = main_separator(style);
    assert(has_physical_root(style, base));
    if needs_separator(style, base) {
        let tail = seq![separator] + other;
        assert(joined(style, base, other) =~= base + tail);
        lemma_leading_separator(set, separator, other);
        lemma_tail_adds_components(style, base, tail);
    } else {
        assert(joined(style, base, other) =~= base + other);
        assert(separates(set, base.last()));
        lemma_tail_adds_components(style, base, other);
    }
}

/// Joining a path without prefix and root, without `..` and without a `.`
/// between separators to an absolute path that holds neither gives such a
/// path again, and the components of the base come first in it: the result
/// lies below the base.
pub proof fn lemma_join_stays_below(style: PathStyle, base: Seq<u8>, other: Seq<u8>)
    requires
        is_plain_base(style, base),
        is_valid_absolute(style, base),
        is_purely_relative(style, other),
        !has_parent_dir(body_components(style_separators(style), other)),
        !has_dot_piece(style_separators(style), other),
    ensures
        is_valid_absolute(style, joined(style, base, other)),
        components(style, joined(style, base, other)).take(
            components(style, base).len() as int,
        ) == components(style, base),
{
    let set = style_separators(style);
    let added = body_components(set, other);
    let before = components(style, base);
    let after = components(style, joined(style, base, other));
    lemma_join_adds_components(style, base, other);
    lemma_body_components_shape(set, other);
    assert(after.take(before.len() as int) =~= before);
    assert(!has_relative_component(after)) by {
        if has_relative_component(after) {
            let i = choose|i: int|
                0 <= i < after.len() && (#[trigger] after[i] is CurDir || after[i] is ParentDir);
            if i < before.len() {
                assert(before[i] == after[i]);
            } else {
                assert(added[i - before.len()] == after[i]);
            }
        }
    }
}

} // verus!

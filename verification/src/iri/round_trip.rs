//! An absolute path, its identifier, and the path that the identifier names.

use crate::iri::encode::{component_segments, file_identifier, file_segments, starts_with_device};
use crate::iri::resolve::{assembled, decoded_segments, file_path_bytes, resolved_file};
use crate::path::absolute::is_valid_absolute;
use crate::path::syntax::{
    body_components, body_separators, body_start, components, drive_at, has_physical_root,
    has_dot_in_body, has_dot_piece, head_components, is_ascii_letter, is_name,
    lemma_body_components_append, lemma_body_components_of_name, lemma_body_components_shape,
    lemma_dot_piece_concat, lemma_dot_piece_trailing_separator, lemma_no_dot_in_name,
    main_separator, normals,
    prefix_of, separates, windows_prefix, ComponentView, PathStyle, PrefixParse, PrefixView,
    Separators, COLON,
};
use crate::percent::{decoded, encoded, lemma_decode_inverts_encode, starts_with_escape};
use vstd::prelude::*;

verus! {

/// The paths that come back from their identifier: absolute paths that
/// hold no `.` and no `..`, end in a name and have no prefix but a plain
/// drive.
pub open spec fn comes_back(style: PathStyle, bytes: Seq<u8>) -> bool {
    &&& is_valid_absolute(style, bytes)
    &&& components(style, bytes).len() > 0
    &&& components(style, bytes).last() is Normal
    &&& match prefix_of(style, bytes) {
        Some(p) => p.prefix is Disk,
        None => true,
    }
}

/// What stands before the first separator of a path that is written out: a
/// plain drive as its letter and `:`, and else nothing.
pub open spec fn written_start(style: PathStyle, bytes: Seq<u8>) -> Seq<u8> {
    match prefix_of(style, bytes) {
        Some(p) => match p.prefix {
            PrefixView::Disk(d) => seq![d, COLON],
            _ => Seq::empty(),
        },
        None => Seq::empty(),
    }
}

/// The path `bytes` written out: its drive if it has one, and then each of
/// its names behind one separator of its style.
pub open spec fn written_out(style: PathStyle, bytes: Seq<u8>) -> Seq<u8> {
    assembled(
        main_separator(style),
        written_start(style, bytes),
        names_of(
            body_components(
                body_separators(style, bytes),
                bytes.skip(body_start(style, bytes) as int),
            ),
        ),
    )
}

/// Each of `names`, percent-encoded.
pub open spec fn encoded_names(names: Seq<Seq<u8>>) -> Seq<Seq<u8>> {
    names.map_values(|name: Seq<u8>| encoded(name))
}

/// Whether each of `names` is a name between separators of `set`.
pub open spec fn all_names(set: Separators, names: Seq<Seq<u8>>) -> bool {
    forall|k: int| 0 <= k < names.len() ==> is_name(set, #[trigger] names[k])
}

/// Names put together behind `start` read back as those names: the result
/// is `start`, a separator, and a body whose components are the names.
pub proof fn lemma_assembled_names(
    set: Separators,
    separator: u8,
    start: Seq<u8>,
    names: Seq<Seq<u8>>,
)
    requires
        separates(set, separator),
        all_names(set, names),
        names.len() > 0,
    ensures
        ({
            let text = assembled(separator, start, names);
            &&& text.len() > start.len()
            &&& text.take(start.len() as int) == start
            &&& text[start.len() as int] == separator
            &&& body_components(set, text.skip(start.len() + 1 as int)) == normals(names)
            &&& !has_dot_piece(set, text.skip(start.len() + 1 as int))
        }),
    decreases names.len(),
{
    let text = assembled(separator, start, names);
    let name = names.last();
    let before = names.drop_last();
    assert(is_name(set, name));
    if before.len() == 0 {
        assert(assembled(separator, start, before) == start);
        assert(text =~= start + seq![separator] + name);
        assert(text.take(start.len() as int) =~= start);
        assert(text.skip(start.len() + 1 as int) =~= name);
        lemma_body_components_of_name(set, name);
        lemma_no_dot_in_name(set, name);
        assert(normals(names) =~= seq![ComponentView::Normal(name)]);
    } else {
        assert(all_names(set, before)) by {
            assert forall|k: int| 0 <= k < before.len() implies is_name(
                set,
                #[trigger] before[k],
            ) by {
                assert(before[k] == names[k]);
            }
        }
        lemma_assembled_names(set, separator, start, before);
        let shorter = assembled(separator, start, before);
        let body = shorter.skip(start.len() + 1 as int);
        assert(text == shorter + seq![separator] + name);
        assert(text.take(start.len() as int) =~= shorter.take(start.len() as int));
        assert(text.skip(start.len() + 1 as int) =~= body + seq![separator] + name);
        lemma_body_components_append(set, body, separator, name);
        assert(body + seq![separator] + name =~= body.push(separator) + name);
        lemma_dot_piece_trailing_separator(set, body, separator);
        lemma_dot_piece_concat(set, body.push(separator), name);
        lemma_no_dot_in_name(set, name);
        assert(normals(names) =~= normals(before).push(ComponentView::Normal(name)));
    }
}

/// The segments of two lists of components, one behind the other.
pub proof fn lemma_file_segments_concat(a: Seq<ComponentView>, b: Seq<ComponentView>)
    ensures
        file_segments(a + b) == file_segments(a) + file_segments(b),
    decreases b.len(),
{
    if b.len() == 0 {
        assert(a + b =~= a);
        assert(file_segments(a) + file_segments(b) =~= file_segments(a));
    } else {
        lemma_file_segments_concat(a, b.drop_last());
        assert((a + b).drop_last() =~= a + b.drop_last());
        assert((a + b).last() == b.last());
        assert(file_segments(a + b) =~= file_segments(a) + file_segments(b));
    }
}

/// The segments of a list of names are their encodings.
pub proof fn lemma_file_segments_of_names(names: Seq<Seq<u8>>)
    ensures
        file_segments(normals(names)) == encoded_names(names),
    decreases names.len(),
{
    if names.len() == 0 {
        assert(file_segments(normals(names)) =~= encoded_names(names));
    } else {
        lemma_file_segments_of_names(names.drop_last());
        assert(normals(names).drop_last() =~= normals(names.drop_last()));
        assert(file_segments(normals(names)) =~= encoded_names(names));
    }
}

/// Decoding the encodings of a list of names gives the names.
pub proof fn lemma_decoded_encoded_names(names: Seq<Seq<u8>>)
    ensures
        decoded_segments(encoded_names(names)) == names,
{
    assert forall|k: int| 0 <= k < names.len() implies decoded(
        #[trigger] encoded_names(names)[k],
    ) == names[k] by {
        lemma_decode_inverts_encode(names[k]);
    }
    assert(decoded_segments(encoded_names(names)) =~= names);
}

/// The names of a body in which every component is a name.
pub open spec fn names_of(body: Seq<ComponentView>) -> Seq<Seq<u8>> {
    body.map_values(|c: ComponentView| c->Normal_0)
}

/// In a path without `.` and `..`, the components after prefix and root are
/// names.
pub proof fn lemma_body_of_valid_path(style: PathStyle, bytes: Seq<u8>)
    requires
        is_valid_absolute(style, bytes),
    ensures
        ({
            let set = body_separators(style, bytes);
            let body = body_components(set, bytes.skip(body_start(style, bytes) as int));
            &&& all_names(set, names_of(body))
            &&& normals(names_of(body)) == body
            &&& components(style, bytes) == head_components(style, bytes) + body
        }),
{
    let set = body_separators(style, bytes);
    let head = head_components(style, bytes);
    let body = body_components(set, bytes.skip(body_start(style, bytes) as int));
    let list = components(style, bytes);
    lemma_body_components_shape(set, bytes.skip(body_start(style, bytes) as int));
    assert forall|k: int| 0 <= k < body.len() implies #[trigger] body[k] is Normal && is_name(
        set,
        body[k]->Normal_0,
    ) by {
        assert(list[head.len() + k] == body[k]);
        assert(!(list[head.len() + k] is CurDir || list[head.len() + k] is ParentDir));
    }
    assert(normals(names_of(body)) =~= body);
}

/// A drive letter and `:` decode to themselves.
pub proof fn lemma_decoded_drive(d: u8)
    requires
        is_ascii_letter(d),
    ensures
        decoded(seq![d, COLON]) == seq![d, COLON],
{
    let text = seq![d, COLON];
    assert(!starts_with_escape(text));
    assert(text.skip(1) =~= seq![COLON]);
    assert(!starts_with_escape(text.skip(1)));
    assert(text.skip(1).skip(1) =~= Seq::<u8>::empty());
    assert(decoded(text.skip(1).skip(1)) =~= Seq::<u8>::empty());
    assert(decoded(text.skip(1)) =~= seq![COLON]);
    assert(decoded(text) =~= text);
}

/// An absolute path that ends in a name, and has no prefix but a plain
/// drive, has an identifier, and the identifier names a path with the same
/// components, whatever bytes the names hold: the path written out.
pub proof fn lemma_round_trip(style: PathStyle, bytes: Seq<u8>)
    requires
        comes_back(style, bytes),
    ensures
        file_identifier(style, bytes) is Ok,
        resolved_file(style, file_identifier(style, bytes)->Ok_0) is Ok,
        ({
            let back = resolved_file(style, file_identifier(style, bytes)->Ok_0)->Ok_0;
            &&& is_valid_absolute(style, back)
            &&& components(style, back) == components(style, bytes)
            &&& back == written_out(style, bytes)
        }),
{
    let set = body_separators(style, bytes);
    let separator = main_separator(style);
    let head = head_components(style, bytes);
    let body = body_components(set, bytes.skip(body_start(style, bytes) as int));
    let list = components(style, bytes);
    let names = names_of(body);
    lemma_body_of_valid_path(style, bytes);
    assert(list == head + body);
    assert(names.len() > 0) by {
        if body.len() == 0 {
            assert(list =~= head);
            assert(!(head.last() is Normal));
        }
    }
    assert(!starts_with_device(list)) by {
        if list.len() > 0 {
            assert(list[0] == head[0]);
        }
    }
    let iri = file_identifier(style, bytes)->Ok_0;
    lemma_file_segments_concat(head, body);
    lemma_file_segments_of_names(names);
    lemma_decoded_encoded_names(names);
    match style {
        PathStyle::Posix => {
            assert(head =~= seq![ComponentView::RootDir]);
            assert(file_segments(head) =~= Seq::<Seq<u8>>::empty()) by {
                let none = Seq::<ComponentView>::empty();
                assert(head.drop_last() =~= none);
                assert(file_segments(none) =~= Seq::<Seq<u8>>::empty());
                assert(head.last() == ComponentView::RootDir);
                assert(file_segments(head) == file_segments(head.drop_last())
                    + component_segments(head.last()));
            }
            assert(iri.segments =~= encoded_names(names));
            let text = assembled(separator, Seq::<u8>::empty(), names);
            assert(file_path_bytes(style, iri.segments) == text);
            lemma_assembled_names(set, separator, Seq::<u8>::empty(), names);
            assert(has_physical_root(style, text));
            assert(body_start(style, text) == 1);
            assert(components(style, text) =~= list);
            assert(!has_dot_in_body(style, text));
        },
        PathStyle::Windows => {
            let d = prefix_of(style, bytes).unwrap().prefix->Disk_0;
            let drive = seq![d, COLON];
            assert(is_ascii_letter(d));
            assert(head =~= seq![
                ComponentView::Prefix(PrefixView::Disk(d)),
                ComponentView::RootDir,
            ]);
            assert(file_segments(head) =~= seq![drive]) by {
                let none = Seq::<ComponentView>::empty();
                let first = seq![ComponentView::Prefix(PrefixView::Disk(d))];
                assert(head.drop_last() =~= first);
                assert(first.drop_last() =~= none);
                assert(file_segments(none) =~= Seq::<Seq<u8>>::empty());
                assert(first.last() == ComponentView::Prefix(PrefixView::Disk(d)));
                assert(file_segments(first) == file_segments(first.drop_last())
                    + component_segments(first.last()));
                assert(file_segments(first) =~= seq![drive]);
                assert(head.last() == ComponentView::RootDir);
                assert(file_segments(head) == file_segments(head.drop_last())
                    + component_segments(head.last()));
            }
            assert(iri.segments =~= seq![drive] + encoded_names(names));
            lemma_decoded_drive(d);
            let parts = decoded_segments(iri.segments);
            assert(parts[0] == drive);
            assert(parts.skip(1) =~= names) by {
                assert(iri.segments.skip(1) =~= encoded_names(names));
                assert(parts.skip(1) =~= decoded_segments(iri.segments.skip(1)));
            }
            let text = assembled(separator, drive, names);
            assert(file_path_bytes(style, iri.segments) == text);
            lemma_assembled_names(set, separator, drive, names);
            assert(text[0] == d && text[1] == COLON) by {
                assert(text.take(2)[0] == d);
                assert(text.take(2)[1] == COLON);
            }
            assert(drive_at(text, 0) == Some(d));
            assert(windows_prefix(text) == Some(
                PrefixParse { prefix: PrefixView::Disk(d), len: 2 },
            ));
            assert(has_physical_root(style, text));
            assert(body_start(style, text) == 3);
            assert(components(style, text) =~= list);
            assert(!has_dot_in_body(style, text));
        },
    }
}

} // verus!

//! From an absolute path to its `file` identifier.

use crate::iri::error::{Error, ErrorView};
use crate::iri::plain::{is_plain_segment, lemma_identifier_is_plain};
use crate::iri::{byte_views, file_scheme, file_scheme_bytes, IdentifierView, ResourceIdentifier};
use crate::path::native::{component_views, Component, NativePath, Prefix};
use crate::path::syntax::{
    components, has_dot_in_body, holds_relative, is_absolute, ComponentView, PathStyle,
    PrefixView, COLON,
};
use crate::percent::{encode_component, encoded};
use vstd::prelude::*;

verus! {

/// The segments that one component contributes to an identifier. A name or
/// a verbatim prefix gives its encoding; a share gives the encodings of
/// server and share; a drive gives its letter and `:`; the root gives none.
pub open spec fn component_segments(c: ComponentView) -> Seq<Seq<u8>> {
    match c {
        ComponentView::Prefix(PrefixView::Verbatim(name)) => seq![encoded(name)],
        ComponentView::Prefix(PrefixView::VerbatimUNC(server, share)) => seq![
            encoded(server),
            encoded(share),
        ],
        ComponentView::Prefix(PrefixView::UNC(server, share)) => seq![
            encoded(server),
            encoded(share),
        ],
        ComponentView::Prefix(PrefixView::VerbatimDisk(d)) => seq![seq![d, COLON]],
        ComponentView::Prefix(PrefixView::Disk(d)) => seq![seq![d, COLON]],
        ComponentView::Prefix(PrefixView::DeviceNS(_)) => Seq::empty(),
        ComponentView::RootDir => Seq::empty(),
        ComponentView::CurDir => Seq::empty(),
        ComponentView::ParentDir => Seq::empty(),
        ComponentView::Normal(name) => seq![encoded(name)],
    }
}

/// The segments that a list of components contributes, in order.
pub open spec fn file_segments(list: Seq<ComponentView>) -> Seq<Seq<u8>>
    decreases list.len(),
{
    if list.len() == 0 {
        Seq::empty()
    } else {
        file_segments(list.drop_last()) + component_segments(list.last())
    }
}

/// Whether the first of `list` is a device namespace.
pub open spec fn starts_with_device(list: Seq<ComponentView>) -> bool {
    list.len() > 0 && list[0] matches ComponentView::Prefix(PrefixView::DeviceNS(_))
}

/// The `file` identifier of the path `bytes` of `style`, or why it has none.
/// A relative path is refused first, then a device namespace, then `.` and
/// `..` anywhere in the path.
pub open spec fn file_identifier(style: PathStyle, bytes: Seq<u8>) -> Result<
    IdentifierView,
    ErrorView,
> {
    let list = components(style, bytes);
    if !is_absolute(style, bytes) {
        Err(ErrorView::NotAbsolute)
    } else if starts_with_device(list) {
        Err(ErrorView::UnsupportedPrefix)
    } else if holds_relative(style, bytes) {
        Err(ErrorView::InvalidComponent)
    } else {
        Ok(
            IdentifierView {
                scheme: file_scheme(),
                authority: if style == PathStyle::Posix {
                    Some(Seq::empty())
                } else {
                    None
                },
                segments: file_segments(list),
                open: false,
            },
        )
    }
}

/// Appends to `segments` what `component` contributes.
fn push_component_segments(segments: &mut Vec<Vec<u8>>, component: &Component)
    ensures
        byte_views(final(segments)@) == byte_views(old(segments)@) + component_segments(
            component@,
        ),
{
    let ghost before = byte_views(segments@);
    match component {
        Component::Prefix(Prefix::Verbatim(name)) => {
            segments.push(encode_component(name.as_slice()));
        },
        Component::Prefix(Prefix::VerbatimUNC(server, share)) => {
            segments.push(encode_component(server.as_slice()));
            segments.push(encode_component(share.as_slice()));
        },
        Component::Prefix(Prefix::UNC(server, share)) => {
            segments.push(encode_component(server.as_slice()));
            segments.push(encode_component(share.as_slice()));
        },
        Component::Prefix(Prefix::VerbatimDisk(d)) => {
            let drive: Vec<u8> = vec![*d, COLON];
            assert(drive@ =~= seq![*d, COLON]);
            segments.push(drive);
        },
        Component::Prefix(Prefix::Disk(d)) => {
            let drive: Vec<u8> = vec![*d, COLON];
            assert(drive@ =~= seq![*d, COLON]);
            segments.push(drive);
        },
        Component::Normal(name) => {
            segments.push(encode_component(name.as_slice()));
        },
        _ => {},
    }
    assert(byte_views(segments@) =~= before + component_segments(component@));
}

/// The `file` identifier of `path`.
///
/// Each name becomes one segment, percent-encoded; a drive becomes the
/// segment `C:`, a share the two segments of server and share. The root of a
/// POSIX path is written as the empty authority. A relative path, a device
/// namespace and a path with `.` or `..` have no identifier. No segment
/// holds a byte other than ASCII letters, digits, `%` and `:`.
pub fn file_path(path: &NativePath) -> (res: Result<ResourceIdentifier, Error>)
    ensures
        match res {
            Ok(iri) => file_identifier(path.style, path.bytes@) == Ok::<IdentifierView, ErrorView>(
                iri@,
            ),
            Err(e) => file_identifier(path.style, path.bytes@) == Err::<IdentifierView, ErrorView>(
                e@,
            ),
        },
        res matches Ok(iri) ==> forall|k: int|
            0 <= k < iri@.segments.len() ==> is_plain_segment(#[trigger] iri@.segments[k]),
{
    proof {
        lemma_identifier_is_plain(path.style, path.bytes@);
    }
    if !path.is_absolute() {
        return Err(Error::NotAbsolute);
    }
    let list = path.components();
    let ghost views = component_views(list@);
    if list.len() > 0 {
        assert(views[0] == list@[0]@);
        match &list[0] {
            Component::Prefix(Prefix::DeviceNS(_)) => {
                return Err(Error::UnsupportedPrefix);
            },
            _ => {},
        }
    }
    if path.has_dot_pieces() {
        return Err(Error::InvalidComponent);
    }
    let mut segments: Vec<Vec<u8>> = Vec::new();
    let mut i: usize = 0;
    assert(file_segments(views.take(0)) =~= Seq::<Seq<u8>>::empty());
    while i < list.len()
        invariant
            i <= list@.len(),
            views == component_views(list@),
            views == components(path.style, path.bytes@),
            is_absolute(path.style, path.bytes@),
            !starts_with_device(views),
            !has_dot_in_body(path.style, path.bytes@),
            byte_views(segments@) == file_segments(views.take(i as int)),
            forall|k: int| 0 <= k < i ==> !(#[trigger] views[k] is CurDir || views[k] is ParentDir),
        decreases list@.len() - i,
    {
        assert(views[i as int] == list@[i as int]@);
        match &list[i] {
            Component::CurDir => {
                return Err(Error::InvalidComponent);
            },
            Component::ParentDir => {
                return Err(Error::InvalidComponent);
            },
            _ => {},
        }
        push_component_segments(&mut segments, &list[i]);
        i += 1;
        assert(views.take(i as int).drop_last() =~= views.take(i - 1));
        assert(views.take(i as int).last() == views[i - 1]);
    }
    assert(views.take(i as int) =~= views);
    let authority = match path.style {
        PathStyle::Posix => Some(Vec::new()),
        PathStyle::Windows => None,
    };
    Ok(ResourceIdentifier { scheme: file_scheme_bytes(), authority, segments, open: false })
}

} // verus!

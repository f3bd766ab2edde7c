//! From an identifier back to an absolute path.

use crate::bytes::{append, equal};
use crate::iri::below::lemma_container_stays_below;
use crate::iri::error::{Error, ErrorView, SupportedSchemes};
use crate::iri::{byte_views, file_scheme, file_scheme_bytes, IdentifierView, ResourceIdentifier};
use crate::path::absolute::{validation, AbsolutePathBuf, TryFromError};
use crate::path::join::is_plain_base;
use crate::path::native::NativePath;
use crate::path::syntax::{components, main_separator, PathStyle};
use crate::percent::{decode_segment, decoded};
use vstd::prelude::*;

verus! {

/// Each segment, percent-decoded.
pub open spec fn decoded_segments(segments: Seq<Seq<u8>>) -> Seq<Seq<u8>> {
    segments.map_values(|s: Seq<u8>| decoded(s))
}

/// `start`, and then each of `parts` behind a separator.
pub open spec fn assembled(separator: u8, start: Seq<u8>, parts: Seq<Seq<u8>>) -> Seq<u8>
    decreases parts.len(),
{
    if parts.len() == 0 {
        start
    } else {
        assembled(separator, start, parts.drop_last()) + seq![separator] + parts.last()
    }
}

/// The native path that the segments of a `file` identifier spell. In the
/// POSIX style every decoded segment stands behind a `/`; in the Windows
/// style the first stands alone and every other behind a `\`.
pub open spec fn file_path_bytes(style: PathStyle, segments: Seq<Seq<u8>>) -> Seq<u8>
    recommends
        segments.len() > 0,
{
    let parts = decoded_segments(segments);
    match style {
        PathStyle::Posix => assembled(main_separator(style), Seq::empty(), parts),
        PathStyle::Windows => assembled(main_separator(style), parts[0], parts.skip(1)),
    }
}

/// `bytes` if they are an absolute path of `style` without `.` and `..`,
/// and else why they are none.
pub open spec fn checked_path(style: PathStyle, bytes: Seq<u8>) -> Result<Seq<u8>, ErrorView> {
    match validation(style, bytes) {
        Ok(()) => Ok(bytes),
        Err(TryFromError::NotAbsolute) => Err(ErrorView::NotAbsolute),
        Err(TryFromError::ContainsRelComponents) => Err(ErrorView::InvalidComponent),
    }
}

/// The path that a `file` identifier names in `style`, or why it names
/// none: another scheme is refused first, then an identifier without
/// segments, then segments that spell no absolute path.
pub open spec fn resolved_file(style: PathStyle, iri: IdentifierView) -> Result<
    Seq<u8>,
    ErrorView,
> {
    if iri.scheme != file_scheme() {
        Err(ErrorView::InvalidScheme(iri.scheme, SupportedSchemes::File))
    } else if iri.segments.len() == 0 {
        Err(ErrorView::EmptyIri)
    } else {
        checked_path(style, file_path_bytes(style, iri.segments))
    }
}

/// The path that the segments of `iri` name below the container root
/// `root`, or why they name none.
pub open spec fn resolved_container(style: PathStyle, root: Seq<u8>, iri: IdentifierView) -> Result<
    Seq<u8>,
    ErrorView,
> {
    checked_path(style, assembled(main_separator(style), root, decoded_segments(iri.segments)))
}

/// Appends to `start` each segment from index `from` on, decoded and behind
/// a separator.
fn assemble(separator: u8, start: Vec<u8>, segments: &Vec<Vec<u8>>, from: usize) -> (out: Vec<u8>)
    requires
        from <= segments@.len(),
    ensures
        out@ == assembled(
            separator,
            start@,
            decoded_segments(byte_views(segments@)).skip(from as int),
        ),
{
    let ghost parts = decoded_segments(byte_views(segments@));
    let mut out = start;
    let mut i: usize = from;
    assert(parts.subrange(from as int, from as int) =~= Seq::<Seq<u8>>::empty());
    while i < segments.len()
        invariant
            from <= i <= segments@.len(),
            parts == decoded_segments(byte_views(segments@)),
            out@ == assembled(separator, start@, parts.subrange(from as int, i as int)),
        decreases segments@.len() - i,
    {
        let part = decode_segment(segments[i].as_slice());
        assert(part@ == parts[i as int]);
        out.push(separator);
        append(&mut out, part.as_slice());
        i += 1;
        assert(parts.subrange(from as int, i as int).drop_last() =~= parts.subrange(
            from as int,
            i - 1,
        ));
        assert(parts.subrange(from as int, i as int).last() == parts[i - 1]);
        assert(out@ =~= assembled(separator, start@, parts.subrange(from as int, i - 1))
            + seq![separator] + part@);
    }
    assert(parts.subrange(from as int, i as int) =~= parts.skip(from as int));
    out
}

/// Validates `bytes` as an absolute path of `style`.
fn check_path(style: PathStyle, bytes: Vec<u8>) -> (res: Result<AbsolutePathBuf, Error>)
    ensures
        match res {
            Ok(path) => checked_path(style, bytes@) == Ok::<Seq<u8>, ErrorView>(
                path.as_native().bytes@,
            ) && path.as_native().style == style && path.wf(),
            Err(e) => checked_path(style, bytes@) == Err::<Seq<u8>, ErrorView>(e@),
        },
{
    match AbsolutePathBuf::try_from(NativePath::new(style, bytes)) {
        Ok(path) => Ok(path),
        Err(TryFromError::NotAbsolute) => Err(Error::NotAbsolute),
        Err(TryFromError::ContainsRelComponents) => Err(Error::InvalidComponent),
    }
}

/// The absolute path that the `file` identifier `iri` names in `style`.
///
/// The segments are percent-decoded and put together with the separator of
/// `style`, and the result is validated. An identifier of another scheme,
/// one without segments and one whose segments spell a relative path or
/// hold `.` or `..` name no path.
pub fn resolve_file_iri(iri: &ResourceIdentifier, style: PathStyle) -> (res: Result<
    AbsolutePathBuf,
    Error,
>)
    ensures
        match res {
            Ok(path) => resolved_file(style, iri@) == Ok::<Seq<u8>, ErrorView>(
                path.as_native().bytes@,
            ) && path.as_native().style == style && path.wf(),
            Err(e) => resolved_file(style, iri@) == Err::<Seq<u8>, ErrorView>(e@),
        },
{
    let file = file_scheme_bytes();
    if !equal(iri.scheme.as_slice(), file.as_slice()) {
        return Err(Error::InvalidScheme(iri.scheme.clone(), SupportedSchemes::File));
    }
    if iri.segments.len() == 0 {
        assert(byte_views(iri.segments@).len() == 0);
        return Err(Error::EmptyIri);
    }
    let ghost parts = decoded_segments(byte_views(iri.segments@));
    let bytes = match style {
        PathStyle::Posix => {
            assert(parts.skip(0) =~= parts);
            assemble(style.separator(), Vec::new(), &iri.segments, 0)
        },
        PathStyle::Windows => {
            let first = decode_segment(iri.segments[0].as_slice());
            assert(first@ == parts[0]);
            assemble(style.separator(), first, &iri.segments, 1)
        },
    };
    check_path(style, bytes)
}

/// The absolute path that the segments of `iri` name below `root`.
///
/// Each segment is percent-decoded and appended to `root` behind the
/// separator of its style, and the result is validated: segments that hold
/// `.` or `..` name no path. The scheme is not looked at. Below a root
/// with no prefix but a plain drive, the components of the root come first
/// in the path that is named.
pub fn resolve_container_iri(root: &AbsolutePathBuf, iri: &ResourceIdentifier) -> (res: Result<
    AbsolutePathBuf,
    Error,
>)
    ensures
        match res {
            Ok(path) => resolved_container(
                root.as_native().style,
                root.as_native().bytes@,
                iri@,
            ) == Ok::<Seq<u8>, ErrorView>(path.as_native().bytes@) && path.as_native().style
                == root.as_native().style && path.wf(),
            Err(e) => resolved_container(root.as_native().style, root.as_native().bytes@, iri@)
                == Err::<Seq<u8>, ErrorView>(e@),
        },
        res is Ok && is_plain_base(root@.style, root@.bytes) ==> components(
            res->Ok_0@.style,
            res->Ok_0@.bytes,
        ).take(components(root@.style, root@.bytes).len() as int) == components(
            root@.style,
            root@.bytes,
        ),
{
    proof {
        if is_plain_base(root@.style, root@.bytes) {
            lemma_container_stays_below(root@.style, root@.bytes, iri@);
        }
    }
    let start = root.to_path_buf();
    let style = start.style;
    let ghost parts = decoded_segments(byte_views(iri.segments@));
    assert(parts.skip(0) =~= parts);
    let bytes = assemble(style.separator(), start.bytes, &iri.segments, 0);
    check_path(style, bytes)
}

} // verus!

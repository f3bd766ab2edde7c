//! Native paths and their components.

use crate::bytes::{append, copy_range, equal};
use crate::path::syntax::{
    body_components, body_separators, body_start, components, drive_at, has_physical_root,
    has_dot_in_body, has_dot_piece, has_relative_component, has_root, head_components,
    holds_relative, is_absolute, is_verbatim, joined,
    lemma_piece_len_is, needs_separator, piece_component, piece_len, prefix_len, prefix_of,
    separates, share_names, starts_verbatim, starts_with_cur_dir, verbatim_prefix,
    windows_prefix, ComponentView, PathStyle, PrefixView, Separators, BACKSLASH, COLON, DOT,
    QUESTION,
};
use vstd::prelude::*;
use vstd::slice::slice_to_vec;
use vstd::string::StringSliceAdditionalSpecFns;

verus! {

/// The prefix of a Windows path.
#[derive(Clone, Debug, PartialEq, Eq)]
pub enum Prefix {
    /// `\\?\name`
    Verbatim(Vec<u8>),
    /// `\\?\UNC\server\share`
    VerbatimUNC(Vec<u8>, Vec<u8>),
    /// `\\?\C:`, with the letter in upper case.
    VerbatimDisk(u8),
    /// `\\.\name`
    DeviceNS(Vec<u8>),
    /// `\\server\share`
    UNC(Vec<u8>, Vec<u8>),
    /// `C:`, with the letter in upper case.
    Disk(u8),
}

impl View for Prefix {
    type V = PrefixView;

    open spec fn view(&self) -> PrefixView {
        match self {
            Prefix::Verbatim(name) => PrefixView::Verbatim(name@),
            Prefix::VerbatimUNC(server, share) => PrefixView::VerbatimUNC(server@, share@),
            Prefix::VerbatimDisk(d) => PrefixView::VerbatimDisk(*d),
            Prefix::DeviceNS(name) => PrefixView::DeviceNS(name@),
            Prefix::UNC(server, share) => PrefixView::UNC(server@, share@),
            Prefix::Disk(d) => PrefixView::Disk(*d),
        }
    }
}

impl Prefix {
    /// Whether this is one of the forms that start with `\\?\`.
    pub fn is_verbatim(&self) -> (r: bool)
        ensures
            r == is_verbatim(self@),
    {
        match self {
            Prefix::Verbatim(_) => true,
            Prefix::VerbatimUNC(_, _) => true,
            Prefix::VerbatimDisk(_) => true,
            _ => false,
        }
    }

    /// Whether this is a plain drive, `C:`.
    pub fn is_disk(&self) -> (r: bool)
        ensures
            r == (self@ is Disk),
    {
        match self {
            Prefix::Disk(_) => true,
            _ => false,
        }
    }
}

/// One component of a native path.
#[derive(Clone, Debug, PartialEq, Eq)]
pub enum Component {
    /// A Windows prefix.
    Prefix(Prefix),
    /// The root, after the prefix if there is one.
    RootDir,
    /// `.`
    CurDir,
    /// `..`
    ParentDir,
    /// A name.
    Normal(Vec<u8>),
}

impl View for Component {
    type V = ComponentView;

    open spec fn view(&self) -> ComponentView {
        match self {
            Component::Prefix(p) => ComponentView::Prefix(p@),
            Component::RootDir => ComponentView::RootDir,
            Component::CurDir => ComponentView::CurDir,
            Component::ParentDir => ComponentView::ParentDir,
            Component::Normal(name) => ComponentView::Normal(name@),
        }
    }
}

/// The views of a list of components.
pub open spec fn component_views(list: Seq<Component>) -> Seq<ComponentView> {
    list.map_values(|c: Component| c@)
}

/// Whether `a` and `b` are the same prefix.
pub fn same_prefix(a: &Prefix, b: &Prefix) -> (same: bool)
    ensures
        same == (a@ == b@),
{
    match (a, b) {
        (Prefix::Verbatim(x), Prefix::Verbatim(y)) => equal(x.as_slice(), y.as_slice()),
        (Prefix::VerbatimUNC(x, s), Prefix::VerbatimUNC(y, t)) => equal(
            x.as_slice(),
            y.as_slice(),
        ) && equal(s.as_slice(), t.as_slice()),
        (Prefix::VerbatimDisk(x), Prefix::VerbatimDisk(y)) => *x == *y,
        (Prefix::DeviceNS(x), Prefix::DeviceNS(y)) => equal(x.as_slice(), y.as_slice()),
        (Prefix::UNC(x, s), Prefix::UNC(y, t)) => equal(x.as_slice(), y.as_slice()) && equal(
            s.as_slice(),
            t.as_slice(),
        ),
        (Prefix::Disk(x), Prefix::Disk(y)) => *x == *y,
        _ => false,
    }
}

/// Whether `a` and `b` are the same component.
pub fn same_component(a: &Component, b: &Component) -> (same: bool)
    ensures
        same == (a@ == b@),
{
    match (a, b) {
        (Component::Prefix(x), Component::Prefix(y)) => same_prefix(x, y),
        (Component::RootDir, Component::RootDir) => true,
        (Component::CurDir, Component::CurDir) => true,
        (Component::ParentDir, Component::ParentDir) => true,
        (Component::Normal(x), Component::Normal(y)) => equal(x.as_slice(), y.as_slice()),
        _ => false,
    }
}

/// Whether `a` and `b` hold the same components in the same order.
pub fn same_components(a: &Vec<Component>, b: &Vec<Component>) -> (same: bool)
    ensures
        same == (component_views(a@) == component_views(b@)),
{
    if a.len() != b.len() {
        assert(component_views(a@).len() != component_views(b@).len());
        return false;
    }
    let mut i: usize = 0;
    while i < a.len()
        invariant
            i <= a@.len(),
            a@.len() == b@.len(),
            forall|k: int| 0 <= k < i ==> (#[trigger] a@[k])@ == b@[k]@,
        decreases a@.len() - i,
    {
        if !same_component(&a[i], &b[i]) {
            assert(component_views(a@)[i as int] == a@[i as int]@);
            assert(component_views(b@)[i as int] == b@[i as int]@);
            return false;
        }
        i += 1;
    }
    assert(component_views(a@) =~= component_views(b@));
    true
}

/// The end of the piece that starts at `from`: the index of the first
/// separator at or after `from`, or the length of `bytes`.
pub fn piece_end(set: Separators, bytes: &[u8], from: usize) -> (end: usize)
    requires
        from <= bytes@.len(),
    ensures
        from <= end <= bytes@.len(),
        end == from + piece_len(set, bytes@.skip(from as int)),
{
    let mut i: usize = from;
    while i < bytes.len() && !set.separates(bytes[i])
        invariant
            from <= i <= bytes@.len(),
            forall|k: int| from <= k < i ==> !separates(set, #[trigger] bytes@[k]),
        decreases bytes@.len() - i,
    {
        i += 1;
    }
    proof {
        lemma_piece_len_is(set, bytes@.skip(from as int), i - from);
    }
    i
}

/// The drive letter at `bytes[at]`, upper-case, if a letter and `:` stand
/// there.
fn drive_letter_at(bytes: &[u8], at: usize) -> (drive: Option<u8>)
    requires
        at <= bytes@.len(),
    ensures
        drive == drive_at(bytes@, at as int),
{
    if bytes.len() - at >= 2 {
        let b = bytes[at];
        if bytes[at + 1] == COLON {
            if 0x61 <= b && b <= 0x7a {
                return Some(b - 0x20);
            } else if 0x41 <= b && b <= 0x5a {
                return Some(b);
            }
        }
    }
    None
}

/// The two names of a share prefix whose first name starts at `start`, and
/// the length of the prefix.
fn parse_share_names(set: Separators, bytes: &[u8], start: usize) -> (names: (
    Vec<u8>,
    Vec<u8>,
    usize,
))
    requires
        start <= bytes@.len(),
    ensures
        (names.0@, names.1@, names.2 as nat) == share_names(set, bytes@, start as int),
        start <= names.2 <= bytes@.len(),
{
    let server_end = piece_end(set, bytes, start);
    let server = copy_range(bytes, start, server_end);
    if server_end < bytes.len() {
        let share_start = server_end + 1;
        let share_end = piece_end(set, bytes, share_start);
        if share_end > share_start {
            let share = copy_range(bytes, share_start, share_end);
            return (server, share, share_end);
        }
    }
    (server, Vec::new(), server_end)
}

/// The prefix of a path that starts with `\\?\`, and its length.
fn parse_verbatim_prefix(bytes: &[u8]) -> (parsed: (Prefix, usize))
    requires
        starts_verbatim(bytes@),
    ensures
        parsed.0@ == verbatim_prefix(bytes@).prefix,
        parsed.1 == verbatim_prefix(bytes@).len,
        parsed.1 <= bytes@.len(),
{
    if bytes.len() >= 8 && bytes[4] == 0x55 && bytes[5] == 0x4e && bytes[6] == 0x43 && bytes[7]
        == BACKSLASH {
        let names = parse_share_names(Separators::Backslash, bytes, 8);
        return (Prefix::VerbatimUNC(names.0, names.1), names.2);
    }
    match drive_letter_at(bytes, 4) {
        Some(d) => {
            if bytes.len() == 6 || Separators::Both.separates(bytes[6]) {
                return (Prefix::VerbatimDisk(d), 6);
            }
        },
        None => {},
    }
    let end = piece_end(Separators::Backslash, bytes, 4);
    (Prefix::Verbatim(copy_range(bytes, 4, end)), end)
}

/// The prefix of a Windows path and its length, if the path has one.
fn parse_windows_prefix(bytes: &[u8]) -> (parsed: Option<(Prefix, usize)>)
    ensures
        parsed is Some <==> windows_prefix(bytes@) is Some,
        parsed matches Some(p) ==> {
            &&& p.0@ == windows_prefix(bytes@).unwrap().prefix
            &&& p.1 == windows_prefix(bytes@).unwrap().len
            &&& p.1 <= bytes@.len()
        },
{
    let both = Separators::Both;
    if bytes.len() >= 2 && both.separates(bytes[0]) && both.separates(bytes[1]) {
        if bytes.len() >= 4 && bytes[0] == BACKSLASH && bytes[1] == BACKSLASH && bytes[2]
            == QUESTION && bytes[3] == BACKSLASH {
            Some(parse_verbatim_prefix(bytes))
        } else if bytes.len() >= 4 && bytes[2] == DOT && both.separates(bytes[3]) {
            let end = piece_end(both, bytes, 4);
            Some((Prefix::DeviceNS(copy_range(bytes, 4, end)), end))
        } else {
            let names = parse_share_names(both, bytes, 2);
            if names.0.len() > 0 && names.1.len() > 0 {
                Some((Prefix::UNC(names.0, names.1), names.2))
            } else {
                None
            }
        }
    } else {
        match drive_letter_at(bytes, 0) {
            Some(d) => Some((Prefix::Disk(d), 2)),
            None => None,
        }
    }
}

/// The prefix of a path of `style` and its length, if the path has one.
pub fn parse_prefix(style: PathStyle, bytes: &[u8]) -> (parsed: Option<(Prefix, usize)>)
    ensures
        parsed is Some <==> prefix_of(style, bytes@) is Some,
        parsed matches Some(p) ==> {
            &&& p.0@ == prefix_of(style, bytes@).unwrap().prefix
            &&& p.1 == prefix_of(style, bytes@).unwrap().len
            &&& p.1 <= bytes@.len()
        },
{
    match style {
        PathStyle::Posix => None,
        PathStyle::Windows => parse_windows_prefix(bytes),
    }
}

/// A native path: bytes, and the style they are read in.
#[derive(Debug)]
pub struct NativePath {
    /// The style the bytes are read in.
    pub style: PathStyle,
    /// The path as it is written.
    pub bytes: Vec<u8>,
}

/// A native path, as contracts speak of it.
pub ghost struct PathView {
    pub style: PathStyle,
    pub bytes: Seq<u8>,
}

impl View for NativePath {
    type V = PathView;

    open spec fn view(&self) -> PathView {
        PathView { style: self.style, bytes: self.bytes@ }
    }
}

/// The views of a list of paths.
pub open spec fn path_views(list: Seq<NativePath>) -> Seq<PathView> {
    list.map_values(|p: NativePath| p@)
}

/// `base` with `other` joined to it.
pub open spec fn joined_view(base: PathView, other: Seq<u8>) -> PathView {
    PathView { style: base.style, bytes: joined(base.style, base.bytes, other) }
}

/// The POSIX path that `bytes` spell.
pub open spec fn posix_view(bytes: Seq<u8>) -> PathView {
    PathView { style: PathStyle::Posix, bytes }
}

/// The view of a path that may be missing.
pub open spec fn optional_view(path: Option<NativePath>) -> Option<PathView> {
    match path {
        Some(p) => Some(p@),
        None => None,
    }
}

impl Clone for NativePath {
    fn clone(&self) -> (copy: NativePath)
        ensures
            copy@ == self@,
    {
        NativePath { style: self.style, bytes: self.bytes.clone() }
    }
}

/// What stands before the body of a path, and how the body is read.
struct Head {
    /// The prefix, if the path has one.
    prefix: Option<Prefix>,
    /// Whether the path has a root.
    rooted: bool,
    /// Whether the path has no root and starts with a `.` of its own.
    leading_dot: bool,
    /// The index of the first byte after prefix, root and leading `.`.
    start: usize,
    /// The separators of the body.
    separators: Separators,
}

impl NativePath {
    /// The components of this path.
    pub open spec fn spec_components(&self) -> Seq<ComponentView> {
        components(self.style, self.bytes@)
    }

    /// Whether this path is absolute.
    pub open spec fn spec_is_absolute(&self) -> bool {
        is_absolute(self.style, self.bytes@)
    }

    /// The path that `bytes` spell in `style`.
    pub fn new(style: PathStyle, bytes: Vec<u8>) -> (path: NativePath)
        ensures
            path.style == style,
            path.bytes == bytes,
    {
        NativePath { style, bytes }
    }

    /// The path that the UTF-8 bytes of `text` spell in `style`.
    pub fn from_str(style: PathStyle, text: &str) -> (path: NativePath)
        ensures
            path.style == style,
            path.bytes@ == text.spec_bytes(),
    {
        NativePath { style, bytes: slice_to_vec(text.as_bytes()) }
    }

    /// The POSIX path that the UTF-8 bytes of `text` spell.
    pub fn posix(text: &str) -> (path: NativePath)
        ensures
            path@ == posix_view(text.spec_bytes()),
    {
        NativePath { style: PathStyle::Posix, bytes: slice_to_vec(text.as_bytes()) }
    }

    /// The path as it is written.
    pub fn as_bytes(&self) -> (bytes: &[u8])
        ensures
            bytes@ == self.bytes@,
    {
        self.bytes.as_slice()
    }

    /// Reads prefix, root and leading `.`.
    fn read_head(&self) -> (head: Head)
        ensures
            match head.prefix {
                Some(p) => prefix_of(self.style, self.bytes@) matches Some(parsed) && parsed.prefix
                    == p@,
                None => prefix_of(self.style, self.bytes@) is None,
            },
            head.rooted == has_root(self.style, self.bytes@),
            head.leading_dot == starts_with_cur_dir(self.style, self.bytes@),
            head.start == body_start(self.style, self.bytes@),
            head.start <= self.bytes@.len(),
            head.separators == body_separators(self.style, self.bytes@),
    {
        let bytes = self.bytes.as_slice();
        let mut start: usize = 0;
        let mut separators = self.style.separators();
        let mut implicit_root = false;
        let mut prefix: Option<Prefix> = None;
        match parse_prefix(self.style, bytes) {
            Some((parsed, len)) => {
                start = len;
                if parsed.is_verbatim() {
                    separators = Separators::Backslash;
                } else {
                    separators = Separators::Both;
                }
                implicit_root = !parsed.is_disk();
                prefix = Some(parsed);
            },
            None => {},
        }
        assert(start == prefix_len(self.style, self.bytes@));
        let physical_root = start < bytes.len() && separators.separates(bytes[start]);
        assert(physical_root == has_physical_root(self.style, self.bytes@));
        let rooted = physical_root || implicit_root;
        let leading_dot = !rooted && start < bytes.len() && bytes[start] == DOT && (start + 1
            == bytes.len() || separators.separates(bytes[start + 1]));
        if physical_root || leading_dot {
            start += 1;
        }
        Head { prefix, rooted, leading_dot, start, separators }
    }

    /// The components of this path, in order.
    pub fn components(&self) -> (out: Vec<Component>)
        ensures
            component_views(out@) == self.spec_components(),
    {
        let bytes = self.bytes.as_slice();
        let mut out: Vec<Component> = Vec::new();
        let head = self.read_head();
        let set = head.separators;
        let mut i: usize = head.start;
        match head.prefix {
            Some(prefix) => {
                out.push(Component::Prefix(prefix));
            },
            None => {},
        }
        if head.rooted {
            out.push(Component::RootDir);
        } else if head.leading_dot {
            out.push(Component::CurDir);
        }
        assert(component_views(out@) =~= head_components(self.style, self.bytes@));
        while i < bytes.len()
            invariant
                i <= bytes@.len(),
                bytes@ == self.bytes@,
                component_views(out@) + body_components(set, bytes@.skip(i as int))
                    == self.spec_components(),
            decreases bytes@.len() - i,
        {
            let end = piece_end(set, bytes, i);
            let ghost before = out@;
            let ghost body = bytes@.skip(i as int);
            let ghost piece = body.take(end - i);
            assert(piece =~= bytes@.subrange(i as int, end as int));
            if end > i {
                if end - i == 1 && bytes[i] == DOT {
                    assert(piece =~= seq![DOT]);
                    if set == Separators::Backslash {
                        out.push(Component::CurDir);
                    }
                } else if end - i == 2 && bytes[i] == DOT && bytes[i + 1] == DOT {
                    assert(piece =~= seq![DOT, DOT]);
                    out.push(Component::ParentDir);
                } else {
                    assert(piece != seq![DOT]) by {
                        if piece.len() == 1 {
                            assert(piece[0] == bytes@[i as int]);
                        }
                    }
                    assert(piece != seq![DOT, DOT]) by {
                        if piece.len() == 2 {
                            assert(piece[0] == bytes@[i as int]);
                            assert(piece[1] == bytes@[i + 1]);
                        }
                    }
                    out.push(Component::Normal(copy_range(bytes, i, end)));
                }
            }
            assert(component_views(out@) =~= component_views(before) + piece_component(
                set,
                piece,
            ));
            let next = if end < bytes.len() {
                end + 1
            } else {
                end
            };
            proof {
                let rest = if end - i < body.len() {
                    body.skip(end - i + 1)
                } else {
                    Seq::empty()
                };
                assert(rest =~= bytes@.skip(next as int));
                assert(body_components(set, body) == piece_component(set, piece)
                    + body_components(set, rest));
            }
            i = next;
        }
        assert(body_components(set, bytes@.skip(i as int)) =~= Seq::<ComponentView>::empty());
        out
    }

    /// Whether this path has a root.
    pub fn has_root(&self) -> (r: bool)
        ensures
            r == has_root(self.style, self.bytes@),
    {
        self.read_head().rooted
    }

    /// Whether this path is absolute.
    pub fn is_absolute(&self) -> (r: bool)
        ensures
            r == self.spec_is_absolute(),
    {
        let head = self.read_head();
        match self.style {
            PathStyle::Posix => head.rooted,
            PathStyle::Windows => head.prefix.is_some() && head.rooted,
        }
    }

    /// This path with `other`, read in the same style, joined to it.
    pub fn join(&self, other: &[u8]) -> (out: NativePath)
        ensures
            out.style == self.style,
            out.bytes@ == joined(self.style, self.bytes@, other@),
    {
        let style = self.style;
        let tail = NativePath { style, bytes: slice_to_vec(other) };
        let tail_head = tail.read_head();
        let tail_prefixed = tail_head.prefix.is_some();
        let tail_absolute = match style {
            PathStyle::Posix => tail_head.rooted,
            PathStyle::Windows => tail_prefixed && tail_head.rooted,
        };
        if tail_absolute || tail_prefixed {
            return tail;
        }
        let base = self.bytes.as_slice();
        let parsed = parse_prefix(style, base);
        if tail_head.rooted {
            let keep = match parsed {
                Some((_, len)) => len,
                None => 0,
            };
            let mut bytes = copy_range(base, 0, keep);
            append(&mut bytes, other);
            assert(bytes@ =~= self.bytes@.take(keep as int) + other@);
            return NativePath { style, bytes };
        }
        let bare_drive = match parsed {
            Some((prefix, len)) => prefix.is_disk() && len == base.len(),
            None => false,
        };
        let mut bytes = self.bytes.clone();
        if base.len() > 0 && !style.separators().separates(base[base.len() - 1]) && !bare_drive {
            assert(needs_separator(style, self.bytes@));
            bytes.push(style.separator());
        }
        append(&mut bytes, other);
        NativePath { style, bytes }
    }

    /// This path with the UTF-8 bytes of `other` joined to it.
    pub fn join_str(&self, other: &str) -> (out: NativePath)
        ensures
            out.style == self.style,
            out.bytes@ == joined(self.style, self.bytes@, other.spec_bytes()),
    {
        self.join(other.as_bytes())
    }

    /// Whether a `.` stands between separators behind prefix and root of
    /// this path.
    pub fn has_dot_pieces(&self) -> (r: bool)
        ensures
            r == has_dot_in_body(self.style, self.bytes@),
    {
        let bytes = self.bytes.as_slice();
        let head = self.read_head();
        let set = head.separators;
        let mut i: usize = head.start;
        while i < bytes.len()
            invariant
                i <= bytes@.len(),
                bytes@ == self.bytes@,
                has_dot_piece(set, bytes@.skip(i as int)) == has_dot_in_body(
                    self.style,
                    self.bytes@,
                ),
            decreases bytes@.len() - i,
        {
            let end = piece_end(set, bytes, i);
            let ghost body = bytes@.skip(i as int);
            let ghost piece = body.take(end - i);
            assert(piece =~= bytes@.subrange(i as int, end as int));
            if end - i == 1 && bytes[i] == DOT {
                assert(piece =~= seq![DOT]);
                return true;
            }
            assert(piece != seq![DOT]) by {
                if piece.len() == 1 {
                    assert(piece[0] == bytes@[i as int]);
                }
            }
            let next = if end < bytes.len() {
                end + 1
            } else {
                end
            };
            proof {
                let rest = if end - i < body.len() {
                    body.skip(end - i + 1)
                } else {
                    Seq::empty()
                };
                assert(rest =~= bytes@.skip(next as int));
            }
            i = next;
        }
        false
    }

    /// Whether this path holds `.` or `..`, as a component or as a `.`
    /// between separators.
    pub fn holds_relative(&self) -> (r: bool)
        ensures
            r == holds_relative(self.style, self.bytes@),
    {
        self.has_relative_components() || self.has_dot_pieces()
    }

    /// Whether `.` or `..` is among the components of this path.
    pub fn has_relative_components(&self) -> (r: bool)
        ensures
            r == has_relative_component(self.spec_components()),
    {
        let list = self.components();
        let mut i: usize = 0;
        while i < list.len()
            invariant
                i <= list@.len(),
                component_views(list@) == self.spec_components(),
                forall|k: int|
                    0 <= k < i ==> !(#[trigger] self.spec_components()[k] is CurDir
                        || self.spec_components()[k] is ParentDir),
            decreases list@.len() - i,
        {
            let relative = match &list[i] {
                Component::CurDir => true,
                Component::ParentDir => true,
                _ => false,
            };
            assert(component_views(list@)[i as int] == list@[i as int]@);
            if relative {
                return true;
            }
            i += 1;
        }
        false
    }
}

} // verus!

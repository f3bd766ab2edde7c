//! The syntax of native paths, as contracts speak of it.
//!
//! A native path is a string of bytes read in one of two styles. In the
//! POSIX style `/` separates components and a leading `/` is the root. In the
//! Windows style `\` and `/` separate components, and the path may start with
//! a prefix: a drive (`C:`), a share (`\\server\share`), a device namespace
//! (`\\.\name`) or one of the verbatim forms that start with `\\?\`, in
//! which only `\` separates.

use vstd::prelude::*;

verus! {

/// The syntax a native path is written in.
#[derive(Clone, Copy, Debug, PartialEq, Eq, Structural)]
pub enum PathStyle {
    /// `/` separates components; a path is absolute when it starts with `/`.
    Posix,
    /// `\` and `/` separate components; a path is absolute when it has a
    /// prefix and a root.
    Windows,
}

/// The bytes that separate components in some part of a path.
#[derive(Clone, Copy, Debug, PartialEq, Eq, Structural)]
pub enum Separators {
    /// `/` only.
    Slash,
    /// `\` only.
    Backslash,
    /// `/` and `\`.
    Both,
}

/// The byte `/`.
pub const SLASH: u8 = 0x2f;

/// The byte `\`.
pub const BACKSLASH: u8 = 0x5c;

/// The byte `.`.
pub const DOT: u8 = 0x2e;

/// The byte `:`.
pub const COLON: u8 = 0x3a;

/// The byte `?`.
pub const QUESTION: u8 = 0x3f;

/// The separator that `style` writes between components.
pub open spec fn main_separator(style: PathStyle) -> u8 {
    match style {
        PathStyle::Posix => SLASH,
        PathStyle::Windows => BACKSLASH,
    }
}

/// Whether `b` is one of `set`.
pub open spec fn separates(set: Separators, b: u8) -> bool {
    match set {
        Separators::Slash => b == SLASH,
        Separators::Backslash => b == BACKSLASH,
        Separators::Both => b == SLASH || b == BACKSLASH,
    }
}

/// The separators of a path of `style` that has no verbatim prefix.
pub open spec fn style_separators(style: PathStyle) -> Separators {
    match style {
        PathStyle::Posix => Separators::Slash,
        PathStyle::Windows => Separators::Both,
    }
}

impl PathStyle {
    /// The separator written between components.
    pub fn separator(self) -> (b: u8)
        ensures
            b == main_separator(self),
    {
        match self {
            PathStyle::Posix => SLASH,
            PathStyle::Windows => BACKSLASH,
        }
    }

    /// The separators of a path that has no verbatim prefix.
    pub fn separators(self) -> (set: Separators)
        ensures
            set == style_separators(self),
    {
        match self {
            PathStyle::Posix => Separators::Slash,
            PathStyle::Windows => Separators::Both,
        }
    }
}

impl Separators {
    /// Whether `b` is one of these separators.
    pub fn separates(self, b: u8) -> (r: bool)
        ensures
            r == separates(self, b),
    {
        match self {
            Separators::Slash => b == SLASH,
            Separators::Backslash => b == BACKSLASH,
            Separators::Both => b == SLASH || b == BACKSLASH,
        }
    }
}

/// Whether `b` is an ASCII letter.
pub open spec fn is_ascii_letter(b: u8) -> bool {
    (0x41 <= b <= 0x5a) || (0x61 <= b <= 0x7a)
}

/// `b` with a lower-case ASCII letter made upper-case.
pub open spec fn to_ascii_upper(b: u8) -> u8 {
    if 0x61 <= b <= 0x7a {
        (b - 0x20) as u8
    } else {
        b
    }
}

/// The number of bytes at the start of `s` before the first separator.
pub open spec fn piece_len(set: Separators, s: Seq<u8>) -> nat
    decreases s.len(),
{
    if s.len() == 0 || separates(set, s[0]) {
        0
    } else {
        1 + piece_len(set, s.skip(1))
    }
}

/// A path prefix, as contracts speak of it.
pub ghost enum PrefixView {
    /// `\\?\name`
    Verbatim(Seq<u8>),
    /// `\\?\UNC\server\share`
    VerbatimUNC(Seq<u8>, Seq<u8>),
    /// `\\?\C:`
    VerbatimDisk(u8),
    /// `\\.\name`
    DeviceNS(Seq<u8>),
    /// `\\server\share`
    UNC(Seq<u8>, Seq<u8>),
    /// `C:`
    Disk(u8),
}

/// A path component, as contracts speak of it.
pub ghost enum ComponentView {
    /// A Windows prefix.
    Prefix(PrefixView),
    /// The root, after the prefix if there is one.
    RootDir,
    /// `.`
    CurDir,
    /// `..`
    ParentDir,
    /// A name.
    Normal(Seq<u8>),
}

/// A prefix and the number of bytes it takes at the start of the path.
pub ghost struct PrefixParse {
    pub prefix: PrefixView,
    pub len: nat,
}

/// The drive letter at `s[at]`, upper-case, if a letter and `:` stand there.
pub open spec fn drive_at(s: Seq<u8>, at: int) -> Option<u8> {
    if 0 <= at && at + 2 <= s.len() && is_ascii_letter(s[at]) && s[at + 1] == COLON {
        Some(to_ascii_upper(s[at]))
    } else {
        None
    }
}

/// The two names of a share prefix whose first name starts at `start`, and
/// the length of the prefix. The second name is empty where the path ends
/// with the first.
pub open spec fn share_names(set: Separators, s: Seq<u8>, start: int) -> (Seq<u8>, Seq<u8>, nat)
    recommends
        0 <= start <= s.len(),
{
    let server_len = piece_len(set, s.skip(start));
    let share_start = start + server_len + 1;
    let share_len = if share_start <= s.len() {
        piece_len(set, s.skip(share_start))
    } else {
        0
    };
    let len = if share_len > 0 {
        share_start + share_len
    } else {
        start + server_len
    };
    (
        s.subrange(start, start + server_len),
        if share_len > 0 {
            s.subrange(share_start, share_start + share_len)
        } else {
            Seq::empty()
        },
        len as nat,
    )
}

/// Whether `s` starts with `\\?\`.
pub open spec fn starts_verbatim(s: Seq<u8>) -> bool {
    s.len() >= 4 && s[0] == BACKSLASH && s[1] == BACKSLASH && s[2] == QUESTION && s[3]
        == BACKSLASH
}

/// Whether `s`, which starts with `\\?\`, goes on with `UNC\`. With a `/`
/// in place of that `\` the prefix is a verbatim name and no share.
pub open spec fn starts_verbatim_unc(s: Seq<u8>) -> bool {
    s.len() >= 8 && s[4] == 0x55 && s[5] == 0x4e && s[6] == 0x43 && s[7] == BACKSLASH
}

/// The prefix of a path that starts with `\\?\`.
pub open spec fn verbatim_prefix(s: Seq<u8>) -> PrefixParse
    recommends
        starts_verbatim(s),
{
    if starts_verbatim_unc(s) {
        let names = share_names(Separators::Backslash, s, 8);
        PrefixParse { prefix: PrefixView::VerbatimUNC(names.0, names.1), len: names.2 }
    } else if drive_at(s, 4) is Some && (s.len() == 6 || separates(Separators::Both, s[6])) {
        PrefixParse { prefix: PrefixView::VerbatimDisk(drive_at(s, 4).unwrap()), len: 6 }
    } else {
        let n = piece_len(Separators::Backslash, s.skip(4)) as int;
        PrefixParse { prefix: PrefixView::Verbatim(s.subrange(4, 4 + n)), len: (4 + n) as nat }
    }
}

/// The prefix of a Windows path, if it has one.
pub open spec fn windows_prefix(s: Seq<u8>) -> Option<PrefixParse> {
    if s.len() >= 2 && separates(Separators::Both, s[0]) && separates(Separators::Both, s[1]) {
        if starts_verbatim(s) {
            Some(verbatim_prefix(s))
        } else if s.len() >= 4 && s[2] == DOT && separates(Separators::Both, s[3]) {
            let n = piece_len(Separators::Both, s.skip(4)) as int;
            Some(
                PrefixParse {
                    prefix: PrefixView::DeviceNS(s.subrange(4, 4 + n)),
                    len: (4 + n) as nat,
                },
            )
        } else {
            let names = share_names(Separators::Both, s, 2);
            if names.0.len() > 0 && names.1.len() > 0 {
                Some(PrefixParse { prefix: PrefixView::UNC(names.0, names.1), len: names.2 })
            } else {
                None
            }
        }
    } else {
        match drive_at(s, 0) {
            Some(d) => Some(PrefixParse { prefix: PrefixView::Disk(d), len: 2 }),
            None => None,
        }
    }
}

/// The prefix of the path `s` of `style`, if it has one.
pub open spec fn prefix_of(style: PathStyle, s: Seq<u8>) -> Option<PrefixParse> {
    match style {
        PathStyle::Posix => None,
        PathStyle::Windows => windows_prefix(s),
    }
}

/// Whether `prefix` is one of the forms that start with `\\?\`.
pub open spec fn is_verbatim(prefix: PrefixView) -> bool {
    prefix is Verbatim || prefix is VerbatimUNC || prefix is VerbatimDisk
}

/// The number of bytes that the prefix of `s` takes.
pub open spec fn prefix_len(style: PathStyle, s: Seq<u8>) -> nat {
    match prefix_of(style, s) {
        Some(p) => p.len,
        None => 0,
    }
}

/// The separators of what follows the prefix of `s`.
pub open spec fn body_separators(style: PathStyle, s: Seq<u8>) -> Separators {
    match prefix_of(style, s) {
        Some(p) => if is_verbatim(p.prefix) {
            Separators::Backslash
        } else {
            Separators::Both
        },
        None => style_separators(style),
    }
}

/// Whether a separator follows the prefix of `s`.
pub open spec fn has_physical_root(style: PathStyle, s: Seq<u8>) -> bool {
    let n = prefix_len(style, s);
    n < s.len() && separates(body_separators(style, s), s[n as int])
}

/// Whether `s` has a root: a separator after the prefix, or a prefix other
/// than a plain drive, which implies one.
pub open spec fn has_root(style: PathStyle, s: Seq<u8>) -> bool {
    has_physical_root(style, s) || match prefix_of(style, s) {
        Some(p) => !(p.prefix is Disk),
        None => false,
    }
}

/// Whether `s` is absolute: in the POSIX style it has a root, in the
/// Windows style a prefix and a root.
pub open spec fn is_absolute(style: PathStyle, s: Seq<u8>) -> bool {
    match style {
        PathStyle::Posix => has_root(style, s),
        PathStyle::Windows => prefix_of(style, s) is Some && has_root(style, s),
    }
}

/// Whether `s` has no root and starts, after the prefix, with a `.` that is
/// a component of its own.
pub open spec fn starts_with_cur_dir(style: PathStyle, s: Seq<u8>) -> bool {
    let n = prefix_len(style, s) as int;
    &&& !has_root(style, s)
    &&& n < s.len()
    &&& s[n] == DOT
    &&& (n + 1 == s.len() || separates(body_separators(style, s), s[n + 1]))
}

/// Where the components after prefix, root and leading `.` start.
pub open spec fn body_start(style: PathStyle, s: Seq<u8>) -> nat {
    prefix_len(style, s) + if has_physical_root(style, s) || starts_with_cur_dir(style, s) {
        1nat
    } else {
        0nat
    }
}

/// The component, if any, that the bytes between two separators make. An
/// empty piece makes none, and `.` makes one only where only `\` separates.
pub open spec fn piece_component(set: Separators, piece: Seq<u8>) -> Seq<ComponentView> {
    if piece.len() == 0 {
        Seq::empty()
    } else if piece == seq![DOT] {
        if set == Separators::Backslash {
            seq![ComponentView::CurDir]
        } else {
            Seq::empty()
        }
    } else if piece == seq![DOT, DOT] {
        seq![ComponentView::ParentDir]
    } else {
        seq![ComponentView::Normal(piece)]
    }
}

/// The components of `s`, which stands after prefix and root.
pub open spec fn body_components(set: Separators, s: Seq<u8>) -> Seq<ComponentView>
    decreases s.len(),
{
    if s.len() == 0 {
        Seq::empty()
    } else {
        let n = piece_len(set, s) as int;
        let rest = if n < s.len() {
            s.skip(n + 1)
        } else {
            Seq::empty()
        };
        piece_component(set, s.take(n)) + body_components(set, rest)
    }
}

/// The components that stand before the body: prefix, root and leading `.`.
pub open spec fn head_components(style: PathStyle, s: Seq<u8>) -> Seq<ComponentView> {
    let prefix = match prefix_of(style, s) {
        Some(p) => seq![ComponentView::Prefix(p.prefix)],
        None => Seq::empty(),
    };
    let root = if has_root(style, s) {
        seq![ComponentView::RootDir]
    } else if starts_with_cur_dir(style, s) {
        seq![ComponentView::CurDir]
    } else {
        Seq::empty()
    };
    prefix + root
}

/// The components of the path `s` of `style`.
pub open spec fn components(style: PathStyle, s: Seq<u8>) -> Seq<ComponentView> {
    head_components(style, s) + body_components(
        body_separators(style, s),
        s.skip(body_start(style, s) as int),
    )
}

/// Whether a piece of `s` between two separators is exactly `.`. Such a
/// piece is no component where `/` separates, and is written all the same.
pub open spec fn has_dot_piece(set: Separators, s: Seq<u8>) -> bool
    decreases s.len(),
{
    if s.len() == 0 {
        false
    } else {
        let n = piece_len(set, s) as int;
        let rest = if n < s.len() {
            s.skip(n + 1)
        } else {
            Seq::empty()
        };
        s.take(n) == seq![DOT] || has_dot_piece(set, rest)
    }
}

/// Whether a `.` stands between separators behind prefix and root of `s`.
pub open spec fn has_dot_in_body(style: PathStyle, s: Seq<u8>) -> bool {
    has_dot_piece(body_separators(style, s), s.skip(body_start(style, s) as int))
}

/// Whether the path `s` holds `.` or `..`: as one of its components, or as
/// a `.` between separators that is no component.
pub open spec fn holds_relative(style: PathStyle, s: Seq<u8>) -> bool {
    has_relative_component(components(style, s)) || has_dot_in_body(style, s)
}

/// Whether `.` or `..` is among `components`.
pub open spec fn has_relative_component(components: Seq<ComponentView>) -> bool {
    exists|i: int|
        0 <= i < components.len() && (#[trigger] components[i] is CurDir || components[i]
            is ParentDir)
}

/// The number of bytes before the first separator is at most the length.
pub proof fn lemma_piece_len_bound(set: Separators, s: Seq<u8>)
    ensures
        piece_len(set, s) <= s.len(),
        piece_len(set, s) < s.len() ==> separates(set, s[piece_len(set, s) as int]),
        forall|i: int| 0 <= i < piece_len(set, s) ==> !separates(set, #[trigger] s[i]),
    decreases s.len(),
{
    if s.len() == 0 || separates(set, s[0]) {
    } else {
        lemma_piece_len_bound(set, s.skip(1));
        let n = piece_len(set, s.skip(1));
        assert forall|i: int| 0 <= i < piece_len(set, s) implies !separates(
            set,
            #[trigger] s[i],
        ) by {
            if i > 0 {
                assert(s[i] == s.skip(1)[i - 1]);
            }
        }
        if piece_len(set, s) < s.len() {
            assert(s[piece_len(set, s) as int] == s.skip(1)[n as int]);
        }
    }
}

/// A run of `n` bytes that are no separators, ended by a separator or by the
/// end of `s`, is the first piece of `s`.
pub proof fn lemma_piece_len_is(set: Separators, s: Seq<u8>, n: int)
    requires
        0 <= n <= s.len(),
        forall|i: int| 0 <= i < n ==> !separates(set, #[trigger] s[i]),
        n < s.len() ==> separates(set, s[n]),
    ensures
        piece_len(set, s) == n,
    decreases n,
{
    if n > 0 {
        let t = s.skip(1);
        assert forall|i: int| 0 <= i < n - 1 implies !separates(set, #[trigger] t[i]) by {
            assert(t[i] == s[i + 1]);
        }
        lemma_piece_len_is(set, t, n - 1);
    }
}

/// Whether a separator has to stand between `base` and what is joined to
/// it: `base` is not empty, does not end in a separator, and is not a bare
/// drive such as `C:`.
pub open spec fn needs_separator(style: PathStyle, base: Seq<u8>) -> bool {
    &&& base.len() > 0
    &&& !separates(style_separators(style), base.last())
    &&& !(prefix_of(style, base) matches Some(p) && p.prefix is Disk && p.len == base.len())
}

/// `base` with `other` joined to it. An absolute `other`, or one with a
/// prefix, replaces `base`; one with a root replaces all of `base` but its
/// prefix; any other is appended, behind a separator where one is needed.
/// A base with a verbatim prefix is joined like any other: `.` and `..` in
/// what is appended stay as they are written.
pub open spec fn joined(style: PathStyle, base: Seq<u8>, other: Seq<u8>) -> Seq<u8> {
    if is_absolute(style, other) || prefix_of(style, other) is Some {
        other
    } else if has_root(style, other) {
        base.take(prefix_len(style, base) as int) + other
    } else if needs_separator(style, base) {
        base + seq![main_separator(style)] + other
    } else {
        base + other
    }
}

/// Whether `name` can stand between two separators of `set` as a name: it
/// is not empty, holds no separator, and is neither `.` nor `..`.
pub open spec fn is_name(set: Separators, name: Seq<u8>) -> bool {
    &&& name.len() > 0
    &&& forall|i: int| 0 <= i < name.len() ==> !separates(set, #[trigger] name[i])
    &&& name != seq![DOT]
    &&& name != seq![DOT, DOT]
}

/// The components that a list of names makes.
pub open spec fn normals(names: Seq<Seq<u8>>) -> Seq<ComponentView> {
    names.map_values(|name: Seq<u8>| ComponentView::Normal(name))
}

/// Where a separator ends the first piece of `a`, what follows `a` does not
/// change that piece; where `a` holds no separator, the piece goes on into
/// what follows.
pub proof fn lemma_piece_len_concat(set: Separators, a: Seq<u8>, b: Seq<u8>)
    ensures
        piece_len(set, a) < a.len() ==> piece_len(set, a + b) == piece_len(set, a),
        piece_len(set, a) == a.len() ==> piece_len(set, a + b) == a.len() + piece_len(set, b),
{
    lemma_piece_len_bound(set, a);
    lemma_piece_len_bound(set, b);
    let n = piece_len(set, a) as int;
    let s = a + b;
    if n < a.len() {
        assert forall|i: int| 0 <= i < n implies !separates(set, #[trigger] s[i]) by {
            assert(s[i] == a[i]);
        }
        assert(s[n] == a[n]);
        lemma_piece_len_is(set, s, n);
    } else {
        let m = (a.len() + piece_len(set, b)) as int;
        assert forall|i: int| 0 <= i < m implies !separates(set, #[trigger] s[i]) by {
            if i < a.len() {
                assert(s[i] == a[i]);
            } else {
                assert(s[i] == b[i - a.len()]);
            }
        }
        if m < s.len() {
            assert(s[m] == b[m - a.len()]);
        }
        lemma_piece_len_is(set, s, m);
    }
}

/// A name alone is one component.
pub proof fn lemma_body_components_of_name(set: Separators, name: Seq<u8>)
    requires
        is_name(set, name),
    ensures
        body_components(set, name) == seq![ComponentView::Normal(name)],
{
    lemma_piece_len_is(set, name, name.len() as int);
    assert(name.take(name.len() as int) =~= name);
    assert(body_components(set, Seq::<u8>::empty()) =~= Seq::<ComponentView>::empty());
    assert(body_components(set, name) =~= seq![ComponentView::Normal(name)]);
}

/// A separator and a name behind `s` add one component to those of `s`.
pub proof fn lemma_body_components_append(
    set: Separators,
    s: Seq<u8>,
    separator: u8,
    name: Seq<u8>,
)
    requires
        separates(set, separator),
        is_name(set, name),
    ensures
        body_components(set, s + seq![separator] + name) == body_components(set, s).push(
            ComponentView::Normal(name),
        ),
    decreases s.len(),
{
    let tail = seq![separator] + name;
    let whole = s + seq![separator] + name;
    assert(whole =~= s + tail);
    lemma_body_components_of_name(set, name);
    if s.len() == 0 {
        assert(whole =~= tail);
        assert(piece_len(set, tail) == 0);
        assert(tail.take(0) =~= Seq::<u8>::empty());
        assert(tail.skip(1) =~= name);
        assert(body_components(set, tail) =~= body_components(set, name));
        assert(body_components(set, s) =~= Seq::<ComponentView>::empty());
    } else {
        lemma_piece_len_bound(set, s);
        lemma_piece_len_concat(set, s, tail);
        let n = piece_len(set, s) as int;
        if n < s.len() {
            let rest = s.skip(n + 1);
            assert(piece_len(set, whole) == n);
            assert(whole.take(n) =~= s.take(n));
            assert(whole.skip(n + 1) =~= rest + seq![separator] + name);
            lemma_body_components_append(set, rest, separator, name);
            assert(body_components(set, whole) =~= body_components(set, s).push(
                ComponentView::Normal(name),
            ));
        } else {
            assert(piece_len(set, tail) == 0);
            assert(piece_len(set, whole) == n);
            assert(whole.take(n) =~= s.take(n));
            assert(whole.skip(n + 1) =~= name);
            assert(body_components(set, Seq::<u8>::empty()) =~= Seq::<ComponentView>::empty());
            assert(body_components(set, whole) =~= body_components(set, s).push(
                ComponentView::Normal(name),
            ));
        }
    }
}

/// Every component that stands after prefix and root is `.`, `..` or a
/// name, and `.` stands there only where only `\` separates.
pub proof fn lemma_body_components_shape(set: Separators, s: Seq<u8>)
    ensures
        forall|k: int|
            0 <= k < body_components(set, s).len() ==> match #[trigger] body_components(set, s)[k] {
                ComponentView::Normal(name) => is_name(set, name),
                ComponentView::ParentDir => true,
                ComponentView::CurDir => set == Separators::Backslash,
                _ => false,
            },
    decreases s.len(),
{
    if s.len() > 0 {
        lemma_piece_len_bound(set, s);
        let n = piece_len(set, s) as int;
        let rest = if n < s.len() {
            s.skip(n + 1)
        } else {
            Seq::empty()
        };
        lemma_body_components_shape(set, rest);
        let piece = s.take(n);
        let first = piece_component(set, piece);
        let others = body_components(set, rest);
        assert forall|k: int| 0 <= k < (first + others).len() implies match #[trigger] (first
            + others)[k] {
            ComponentView::Normal(name) => is_name(set, name),
            ComponentView::ParentDir => true,
            ComponentView::CurDir => set == Separators::Backslash,
            _ => false,
        } by {
            if k < first.len() {
                assert forall|i: int| 0 <= i < piece.len() implies !separates(
                    set,
                    #[trigger] piece[i],
                ) by {
                    assert(piece[i] == s[i]);
                }
            } else {
                assert((first + others)[k] == others[k - first.len()]);
            }
        }
    }
}

/// Behind a text that is empty or ends in a separator, the components of
/// what follows are added to its own.
pub proof fn lemma_body_components_concat(set: Separators, s: Seq<u8>, t: Seq<u8>)
    requires
        s.len() == 0 || separates(set, s.last()),
    ensures
        body_components(set, s + t) == body_components(set, s) + body_components(set, t),
    decreases s.len(),
{
    if s.len() == 0 {
        assert(s + t =~= t);
        assert(body_components(set, s) + body_components(set, t) =~= body_components(set, t));
    } else {
        lemma_piece_len_bound(set, s);
        lemma_piece_len_concat(set, s, t);
        let n = piece_len(set, s) as int;
        assert(n < s.len()) by {
            if n == s.len() {
                assert(!separates(set, s[s.len() - 1]));
            }
        }
        let rest = s.skip(n + 1);
        assert((s + t).take(n) =~= s.take(n));
        assert((s + t).skip(n + 1) =~= rest + t);
        if rest.len() > 0 {
            assert(rest.last() == s.last());
        }
        lemma_body_components_concat(set, rest, t);
        assert(body_components(set, s + t) =~= body_components(set, s) + body_components(
            set,
            t,
        ));
    }
}

/// A separator at the end of a text adds no component.
pub proof fn lemma_body_components_trailing_separator(set: Separators, s: Seq<u8>, separator: u8)
    requires
        separates(set, separator),
    ensures
        body_components(set, s.push(separator)) == body_components(set, s),
    decreases s.len(),
{
    let whole = s.push(separator);
    let none = Seq::<ComponentView>::empty();
    assert(body_components(set, Seq::<u8>::empty()) =~= none);
    if s.len() == 0 {
        assert(piece_len(set, whole) == 0);
        assert(whole.take(0) =~= Seq::<u8>::empty());
        assert(whole.skip(1) =~= Seq::<u8>::empty());
        assert(body_components(set, whole) =~= none);
    } else {
        lemma_piece_len_bound(set, s);
        lemma_piece_len_concat(set, s, seq![separator]);
        assert(whole =~= s + seq![separator]);
        let n = piece_len(set, s) as int;
        assert(piece_len(set, seq![separator]) == 0);
        assert(piece_len(set, whole) == n);
        assert(whole.take(n) =~= s.take(n));
        if n < s.len() {
            let rest = s.skip(n + 1);
            assert(whole.skip(n + 1) =~= rest.push(separator));
            lemma_body_components_trailing_separator(set, rest, separator);
        } else {
            assert(whole.skip(n + 1) =~= Seq::<u8>::empty());
        }
        assert(body_components(set, whole) =~= body_components(set, s));
    }
}

/// A name is no `.` and holds none.
pub proof fn lemma_no_dot_in_name(set: Separators, name: Seq<u8>)
    requires
        is_name(set, name),
    ensures
        !has_dot_piece(set, name),
{
    lemma_piece_len_is(set, name, name.len() as int);
    assert(name.take(name.len() as int) =~= name);
    assert(!has_dot_piece(set, Seq::<u8>::empty()));
}

/// Behind a text that is empty or ends in a separator, a `.` stands
/// between separators where it does in the text or in what follows.
pub proof fn lemma_dot_piece_concat(set: Separators, s: Seq<u8>, t: Seq<u8>)
    requires
        s.len() == 0 || separates(set, s.last()),
    ensures
        has_dot_piece(set, s + t) == (has_dot_piece(set, s) || has_dot_piece(set, t)),
    decreases s.len(),
{
    if s.len() == 0 {
        assert(s + t =~= t);
    } else {
        lemma_piece_len_bound(set, s);
        lemma_piece_len_concat(set, s, t);
        let n = piece_len(set, s) as int;
        assert(n < s.len()) by {
            if n == s.len() {
                assert(!separates(set, s[s.len() - 1]));
            }
        }
        let rest = s.skip(n + 1);
        assert((s + t).take(n) =~= s.take(n));
        assert((s + t).skip(n + 1) =~= rest + t);
        if rest.len() > 0 {
            assert(rest.last() == s.last());
        }
        lemma_dot_piece_concat(set, rest, t);
    }
}

/// A separator at the end of a text adds no `.`.
pub proof fn lemma_dot_piece_trailing_separator(set: Separators, s: Seq<u8>, separator: u8)
    requires
        separates(set, separator),
    ensures
        has_dot_piece(set, s.push(separator)) == has_dot_piece(set, s),
    decreases s.len(),
{
    let whole = s.push(separator);
    assert(!has_dot_piece(set, Seq::<u8>::empty()));
    if s.len() == 0 {
        assert(piece_len(set, whole) == 0);
        assert(whole.take(0) =~= Seq::<u8>::empty());
        assert(whole.skip(1) =~= Seq::<u8>::empty());
    } else {
        lemma_piece_len_bound(set, s);
        lemma_piece_len_concat(set, s, seq![separator]);
        assert(whole =~= s + seq![separator]);
        let n = piece_len(set, s) as int;
        assert(piece_len(set, seq![separator]) == 0);
        assert(piece_len(set, whole) == n);
        assert(whole.take(n) =~= s.take(n));
        if n < s.len() {
            let rest = s.skip(n + 1);
            assert(whole.skip(n + 1) =~= rest.push(separator));
            lemma_dot_piece_trailing_separator(set, rest, separator);
        } else {
            assert(whole.skip(n + 1) =~= Seq::<u8>::empty());
        }
    }
}

} // verus!

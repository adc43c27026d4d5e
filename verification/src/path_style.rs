//! Abbreviated path rendering for sidebar rows and pane titles.
//!
//! The caller decides what counts as home: a WSL path's home lives inside the
//! distro and cannot be inferred from the path.

use vstd::prelude::*;

use crate::text::{chars_of, concat2, concat3, from_chars, from_range, has_prefix, same, split_either};
#[allow(unused_imports)]
use crate::text::{either, lowered, split_where, texts};

verus! {

/// How a path is spelled to the user.  `Full` is the identity.
#[derive(Debug, Clone, Copy, PartialEq, Eq, Structural)]
pub enum PathStyle {
    Full,
    /// Every parent segment collapses to its first character, fish-style.
    Fish,
    /// The filename leads, the parent trails it.
    Zed,
}

/// A path cut where it may be abbreviated.  `root` is never abbreviated and
/// never reordered; `parent` keeps its trailing separator, and is empty for a
/// bare name.
#[derive(Debug, PartialEq, Eq)]
pub struct Parts {
    pub root: String,
    pub parent: String,
    pub name: String,
}

/// A cut path, viewed.
#[verifier::ext_equal]
pub struct PartsView {
    pub root: Seq<char>,
    pub parent: Seq<char>,
    pub name: Seq<char>,
}

impl View for Parts {
    type V = PartsView;

    open spec fn view(&self) -> PartsView {
        PartsView { root: self.root@, parent: self.parent@, name: self.name@ }
    }
}

/// What a verbatim path to a share begins with.
pub const VERBATIM_SHARE: &'static str = "\\\\?\\UNC\\";

/// What a verbatim path begins with.
pub const VERBATIM: &'static str = "\\\\?\\";

/// What a path to a share begins with.
pub const SHARE: &'static str = "\\\\";

/// The place past `n` segments and the backslash closing the last one,
/// counting from `from`.  `None` where the text runs out first.
pub open spec fn past_segments(s: Seq<char>, n: nat, from: nat) -> Option<nat>
    decreases n, s.len() - from,
{
    if n == 0 {
        Some(from)
    } else if from >= s.len() {
        None
    } else if s[from as int] == '\\' {
        past_segments(s, (n - 1) as nat, from + 1)
    } else {
        past_segments(s, n, from + 1)
    }
}

/// A letter of the alphabet.
pub open spec fn is_letter(c: char) -> bool {
    'a' <= c <= 'z' || 'A' <= c <= 'Z'
}

/// Whether a path begins with a drive and a separator.
pub open spec fn has_drive_root(s: Seq<char>) -> bool {
    s.len() >= 3 && is_letter(s[0]) && s[1] == ':' && (s[2] == '\\' || s[2] == '/')
}

/// Whether a path begins with a drive.
pub open spec fn has_drive(s: Seq<char>) -> bool {
    s.len() >= 2 && is_letter(s[0]) && s[1] == ':'
}

/// The share a path is on, as its root, and what is beneath it.  Where the
/// path runs out first, all of it is root.
pub open spec fn share_root(path: Seq<char>, prefix: nat) -> (Seq<char>, Seq<char>, char) {
    match past_segments(path, 2, prefix) {
        Some(len) => (path.take(len as int), path.skip(len as int), '\\'),
        None => (path, Seq::empty(), '\\'),
    }
}

/// The root, the remainder, and the separator the root implies.
///
/// Matched by prefix and in this order, because a backslash and a colon are
/// legal inside a Unix filename.
pub open spec fn root_of(path: Seq<char>) -> (Seq<char>, Seq<char>, char) {
    if VERBATIM_SHARE@.is_prefix_of(path) {
        share_root(path, 8)
    } else if VERBATIM@.is_prefix_of(path) && has_drive_root(path.skip(4)) {
        (path.take(7), path.skip(7), '\\')
    } else if SHARE@.is_prefix_of(path) {
        share_root(path, 2)
    } else if has_drive_root(path) {
        (seq![path[0], ':', '\\'], path.skip(3), '\\')
    } else if has_drive(path) {
        (path.take(2), path.skip(2), '\\')
    } else if path.len() > 0 && path[0] == '/' {
        (seq!['/'], path.skip(1), '/')
    } else {
        (Seq::empty(), path, '/')
    }
}

/// The other character that parts the segments of a path: Windows paths are
/// split on either separator, POSIX paths only on `/`.
pub open spec fn other_separator(sep: char) -> char {
    if sep == '\\' {
        '/'
    } else {
        sep
    }
}

/// The segments of the part of a path beneath its root.
pub open spec fn segments(rest: Seq<char>, sep: char) -> Seq<Seq<char>> {
    split_where(rest, either(sep, other_separator(sep))).filter(|s: Seq<char>| s.len() > 0)
}

/// A text without the separators at its end.
pub open spec fn trim_separators(s: Seq<char>) -> Seq<char>
    decreases s.len(),
{
    if s.len() > 0 && (s.last() == '/' || s.last() == '\\') {
        trim_separators(s.drop_last())
    } else {
        s
    }
}

/// The bytes a character takes.
pub open spec fn char_bytes(c: char) -> nat {
    if c < 0x80 {
        1
    } else if c < 0x800 {
        2
    } else if c < 0x10000 {
        3
    } else {
        4
    }
}

/// The bytes a text takes.
pub open spec fn text_bytes(s: Seq<char>) -> nat
    decreases s.len(),
{
    if s.len() == 0 {
        0
    } else {
        char_bytes(s[0]) + text_bytes(s.skip(1))
    }
}

/// The characters that take just so many bytes from the front, where some do.
pub open spec fn cut_at(s: Seq<char>, bytes: nat) -> Option<nat>
    decreases s.len(),
{
    if bytes == 0 {
        Some(0)
    } else if s.len() == 0 || char_bytes(s[0]) > bytes {
        None
    } else {
        match cut_at(s.skip(1), (bytes - char_bytes(s[0])) as nat) {
            Some(n) => Some(1 + n),
            None => None,
        }
    }
}

/// A Windows path with its separators and case folded.  All of Unicode is
/// lowered: the file system folds case beyond ASCII.
pub open spec fn folded(s: Seq<char>) -> Seq<char> {
    lowered(backslashed(s))
}

/// A text with every slash a backslash.
pub open spec fn backslashed(s: Seq<char>) -> Seq<char> {
    s.map_values(
        |c: char|
            if c == '/' {
                '\\'
            } else {
                c
            },
    )
}

/// Whether two paths name the same place.  A Windows file system is
/// case-insensitive and accepts both separators; a Unix one is neither.
pub open spec fn same_place(a: Seq<char>, b: Seq<char>, sep: char) -> bool {
    if sep == '\\' {
        folded(a) == folded(b)
    } else {
        a == b
    }
}

/// What stands beneath a home of that many bytes, given whether the path is
/// home itself and whether its head is.
pub open spec fn beneath(path: Seq<char>, bytes: nat, sep: char, whole: bool, head: bool) -> Option<Seq<char>> {
    if whole {
        Some(Seq::empty())
    } else {
        match cut_at(path, bytes) {
            None => None,
            Some(n) => if head && n < path.len() && (path[n as int] == sep || path[n as int] == other_separator(sep)) {
                Some(path.skip(n as int + 1))
            } else {
                None
            },
        }
    }
}

/// The part of a path beneath home, and `None` when it is not beneath it.  The
/// path of home itself has nothing beneath it.  A home that is nothing but
/// separators is nobody's.
pub open spec fn under_home(path: Seq<char>, home: Seq<char>, sep: char) -> Option<Seq<char>> {
    let home = trim_separators(home);
    let bytes = text_bytes(home);
    if home.len() == 0 {
        None
    } else {
        beneath(
            path,
            bytes,
            sep,
            same_place(path, home, sep),
            cut_at(path, bytes) is Some && same_place(path.take(cut_at(path, bytes)->0 as int), home, sep),
        )
    }
}

/// A parent segment as the style spells it: fish keeps its first character,
/// and one more behind a dot.
pub open spec fn abbreviated(segment: Seq<char>, style: PathStyle) -> Seq<char> {
    if style != PathStyle::Fish || segment == "~"@ || segment.len() == 0 {
        segment
    } else if segment[0] == '.' && segment.len() > 1 {
        segment.take(2)
    } else {
        segment.take(1)
    }
}

/// Parent segments as the style spells them, each with its separator.
pub open spec fn parent_of(list: Seq<Seq<char>>, style: PathStyle, sep: char) -> Seq<char>
    decreases list.len(),
{
    if list.len() == 0 {
        Seq::empty()
    } else {
        parent_of(list.drop_last(), style, sep) + abbreviated(list.last(), style) + seq![sep]
    }
}

/// Root and segments as parts.
pub open spec fn parts_of(root: Seq<char>, list: Seq<Seq<char>>, style: PathStyle, sep: char) -> PartsView {
    if list.len() == 0 {
        PartsView { root, parent: Seq::empty(), name: Seq::empty() }
    } else {
        PartsView { root, parent: parent_of(list.drop_last(), style, sep), name: list.last() }
    }
}

/// A path cut as the style asks.  `~` replaces the root as well as the leading
/// segments, so a collapsed path carries no root of its own.
pub open spec fn cut(path: Seq<char>, style: PathStyle, home: Option<Seq<char>>) -> PartsView {
    let (root, rest, sep) = root_of(path);
    let collapsed = match home {
        Some(home) => if style == PathStyle::Full {
            None
        } else {
            under_home(path, home, sep)
        },
        None => None,
    };
    match collapsed {
        Some(tail) => parts_of(Seq::empty(), seq!["~"@] + segments(tail, sep), style, sep),
        None => parts_of(root, segments(rest, sep), style, sep),
    }
}

/// How a path reads in a style.
pub open spec fn rendered(path: Seq<char>, style: PathStyle, home: Option<Seq<char>>) -> Seq<char> {
    let parts = cut(path, style, home);
    match style {
        PathStyle::Full => path,
        PathStyle::Fish => parts.root + parts.parent + parts.name,
        PathStyle::Zed => if parts.parent.len() == 0 {
            parts.root + parts.name
        } else {
            parts.name + seq![' '] + parts.root + parts.parent
        },
    }
}

fn segments_past(chars: &Vec<char>, n: usize, from: usize) -> (r: Option<usize>)
    requires
        from <= chars@.len(),
        n <= 2,
    ensures
        (match r {
            Some(at) => Some(at as nat),
            None => None,
        }) == past_segments(chars@, n as nat, from as nat),
        r matches Some(at) ==> at <= chars@.len(),
{
    let mut left: usize = n;
    let mut i: usize = from;
    while left > 0 && i < chars.len()
        invariant
            i <= chars@.len(),
            past_segments(chars@, n as nat, from as nat) == past_segments(chars@, left as nat, i as nat),
        decreases chars@.len() - i,
    {
        if chars[i] == '\\' {
            left -= 1;
        }
        i += 1;
    }
    if left == 0 {
        Some(i)
    } else {
        None
    }
}

fn letter(c: char) -> (r: bool)
    ensures
        r == is_letter(c),
{
    ('a' <= c && c <= 'z') || ('A' <= c && c <= 'Z')
}

fn drive_root_at(chars: &Vec<char>, from: usize) -> (r: bool)
    requires
        from <= chars@.len(),
    ensures
        r == has_drive_root(chars@.skip(from as int)),
{
    let ghost s = chars@.skip(from as int);
    if chars.len() - from < 3 {
        return false;
    }
    assert(s[0] == chars@[from as int] && s[1] == chars@[from + 1] && s[2] == chars@[from + 2]);
    letter(chars[from]) && chars[from + 1] == ':' && (chars[from + 2] == '\\' || chars[from + 2] == '/')
}

fn share_parts(chars: &Vec<char>, prefix: usize) -> (r: (String, String, char))
    requires
        prefix <= chars@.len(),
    ensures
        (r.0@, r.1@, r.2) == share_root(chars@, prefix as nat),
{
    match segments_past(chars, 2, prefix) {
        Some(len) => {
            assert(chars@.subrange(0, len as int) =~= chars@.take(len as int));
            assert(chars@.subrange(len as int, chars@.len() as int) =~= chars@.skip(len as int));
            (from_range(chars, 0, len), from_range(chars, len, chars.len()), '\\')
        },
        None => {
            assert(chars@.subrange(0, chars@.len() as int) =~= chars@);
            (from_range(chars, 0, chars.len()), String::new(), '\\')
        },
    }
}

fn split_root(chars: &Vec<char>) -> (r: (String, String, char))
    ensures
        (r.0@, r.1@, r.2) == root_of(chars@),
{
    proof {
        reveal_strlit("\\\\?\\UNC\\");
        reveal_strlit("\\\\?\\");
        reveal_strlit("\\\\");
        assert(chars@.skip(0) =~= chars@);
    }
    if has_prefix(chars, VERBATIM_SHARE) {
        return share_parts(chars, 8);
    }
    if has_prefix(chars, VERBATIM) && drive_root_at(chars, 4) {
        assert(chars@.subrange(0, 7) =~= chars@.take(7));
        assert(chars@.subrange(7, chars@.len() as int) =~= chars@.skip(7));
        return (from_range(chars, 0, 7), from_range(chars, 7, chars.len()), '\\');
    }
    if has_prefix(chars, SHARE) {
        return share_parts(chars, 2);
    }
    if drive_root_at(chars, 0) {
        // A drive path is joined with backslashes again, so its root ends in
        // one whichever was written.
        let root: [char; 3] = [chars[0], ':', '\\'];
        assert(root@ =~= seq![chars@[0], ':', '\\']);
        assert(chars@.subrange(3, chars@.len() as int) =~= chars@.skip(3));
        return (from_chars(root.as_slice()), from_range(chars, 3, chars.len()), '\\');
    }
    if chars.len() >= 2 && letter(chars[0]) && chars[1] == ':' {
        // Relative to the drive's current directory, so no separator may be
        // put after the root.
        assert(chars@.subrange(0, 2) =~= chars@.take(2));
        assert(chars@.subrange(2, chars@.len() as int) =~= chars@.skip(2));
        return (from_range(chars, 0, 2), from_range(chars, 2, chars.len()), '\\');
    }
    if chars.len() > 0 && chars[0] == '/' {
        proof {
            reveal_strlit("/");
            assert("/"@ =~= seq!['/']);
            assert(chars@.subrange(1, chars@.len() as int) =~= chars@.skip(1));
        }
        return ("/".to_owned(), from_range(chars, 1, chars.len()), '/');
    }
    assert(chars@.subrange(0, chars@.len() as int) =~= chars@);
    (String::new(), from_range(chars, 0, chars.len()), '/')
}

fn other_sep(sep: char) -> (r: char)
    ensures
        r == other_separator(sep),
{
    if sep == '\\' {
        '/'
    } else {
        sep
    }
}

fn segments_of(rest: &str, sep: char) -> (r: Vec<String>)
    ensures
        texts(r@) == segments(rest@, sep),
{
    let pieces = split_either(rest, sep, other_sep(sep));
    let ghost all = texts(pieces@);
    let ghost keep = |s: Seq<char>| s.len() > 0;
    let mut out: Vec<String> = Vec::new();
    let mut i: usize = 0;
    proof {
        reveal(Seq::filter);
        reveal_strlit("");
        assert(all.take(0) =~= Seq::<Seq<char>>::empty());
        assert(texts(out@) =~= Seq::empty());
    }
    while i < pieces.len()
        invariant
            i <= pieces@.len(),
            all == texts(pieces@),
            keep == (|s: Seq<char>| s.len() > 0),
            ""@.len() == 0,
            texts(out@) == all.take(i as int).filter(keep),
        decreases pieces@.len() - i,
    {
        proof {
            reveal(Seq::filter);
            assert(all.take(i + 1).drop_last() =~= all.take(i as int));
            assert(all.take(i + 1).last() == pieces@[i as int]@);
            if pieces@[i as int]@.len() == 0 {
                assert(pieces@[i as int]@ =~= ""@);
            }
        }
        if !same(&pieces[i], "") {
            let ghost before = out@;
            out.push(pieces[i].clone());
            assert(texts(out@) =~= texts(before).push(pieces@[i as int]@));
        }
        i += 1;
    }
    assert(all.take(all.len() as int) =~= all);
    out
}

fn without_separators(chars: &Vec<char>) -> (r: Vec<char>)
    ensures
        r@ == trim_separators(chars@),
{
    let mut end: usize = chars.len();
    proof {
        assert(chars@.take(chars@.len() as int) =~= chars@);
    }
    while end > 0 && (chars[end - 1] == '/' || chars[end - 1] == '\\')
        invariant
            end <= chars@.len(),
            trim_separators(chars@) == trim_separators(chars@.take(end as int)),
        decreases end,
    {
        assert(chars@.take(end as int).drop_last() =~= chars@.take(end - 1));
        assert(chars@.take(end as int).last() == chars@[end - 1]);
        end -= 1;
    }
    let ghost kept = chars@.take(end as int);
    assert(end > 0 ==> kept.last() == chars@[end - 1]);
    let mut r: Vec<char> = Vec::new();
    let mut i: usize = 0;
    while i < end
        invariant
            i <= end <= chars@.len(),
            r@ == chars@.take(i as int),
        decreases end - i,
    {
        r.push(chars[i]);
        assert(chars@.take(i + 1) =~= chars@.take(i as int).push(chars@[i as int]));
        i += 1;
    }
    r
}

fn bytes_of_char(c: char) -> (r: u128)
    ensures
        r == char_bytes(c),
{
    let code: u32 = c as u32;
    if code < 0x80 {
        1
    } else if code < 0x800 {
        2
    } else if code < 0x10000 {
        3
    } else {
        4
    }
}

fn bytes_of(chars: &Vec<char>) -> (r: u128)
    ensures
        r == text_bytes(chars@),
{
    let mut sum: u128 = 0;
    let mut i: usize = chars.len();
    proof {
        assert(chars@.skip(chars@.len() as int) =~= Seq::<char>::empty());
    }
    while i > 0
        invariant
            i <= chars@.len(),
            sum == text_bytes(chars@.skip(i as int)),
            sum <= 4 * (chars@.len() - i),
            chars@.len() <= usize::MAX,
        decreases i,
    {
        i -= 1;
        assert(chars@.skip(i as int).skip(1) =~= chars@.skip(i + 1));
        assert(chars@.skip(i as int)[0] == chars@[i as int]);
        sum = sum + bytes_of_char(chars[i]);
    }
    assert(chars@.skip(0) =~= chars@);
    sum
}

/// The characters that take just so many bytes from the front.
fn chars_in(chars: &Vec<char>, bytes: u128) -> (r: Option<usize>)
    ensures
        (match r {
            Some(n) => Some(n as nat),
            None => None,
        }) == cut_at(chars@, bytes as nat),
        r matches Some(n) ==> n <= chars@.len(),
{
    let mut left: u128 = bytes;
    let mut i: usize = 0;
    proof {
        assert(chars@.skip(0) =~= chars@);
    }
    while left > 0
        invariant
            i <= chars@.len(),
            cut_at(chars@, bytes as nat) == (match cut_at(chars@.skip(i as int), left as nat) {
                Some(n) => Some(i as nat + n),
                None => None,
            }),
        decreases left,
    {
        let ghost rest = chars@.skip(i as int);
        if i >= chars.len() {
            return None;
        }
        assert(rest[0] == chars@[i as int]);
        assert(rest.skip(1) =~= chars@.skip(i + 1));
        let take = bytes_of_char(chars[i]);
        if take > left {
            return None;
        }
        left = left - take;
        i += 1;
    }
    Some(i)
}

fn fold(chars: &Vec<char>, upto: usize) -> (r: String)
    requires
        upto <= chars@.len(),
    ensures
        r@ == folded(chars@.take(upto as int)),
{
    let mut out: Vec<char> = Vec::new();
    let mut i: usize = 0;
    while i < upto
        invariant
            i <= upto <= chars@.len(),
            out@ == backslashed(chars@.take(i as int)),
        decreases upto - i,
    {
        let c = chars[i];
        out.push(
            if c == '/' {
                '\\'
            } else {
                c
            },
        );
        assert(out@ =~= backslashed(chars@.take(i + 1)));
        i += 1;
    }
    from_chars(out.as_slice()).as_str().to_lowercase()
}

fn same_upto(path: &Vec<char>, upto: usize, home: &Vec<char>, sep: char) -> (r: bool)
    requires
        upto <= path@.len(),
    ensures
        r == same_place(path@.take(upto as int), home@, sep),
{
    assert(home@.take(home@.len() as int) =~= home@);
    if sep == '\\' {
        return same(fold(path, upto).as_str(), fold(home, home.len()).as_str());
    }
    if upto != home.len() {
        return false;
    }
    let mut i: usize = 0;
    while i < upto
        invariant
            i <= upto,
            sep != '\\',
            upto <= path@.len(),
            upto == home@.len(),
            forall|k: int| 0 <= k < i ==> path@[k] == home@[k],
        decreases upto - i,
    {
        if path[i] != home[i] {
            assert(path@.take(upto as int)[i as int] != home@[i as int]);
            return false;
        }
        i += 1;
    }
    assert(path@.take(upto as int) =~= home@);
    true
}

/// What stands beneath a home of that many bytes, given whether the path is
/// home itself and whether its head is.
pub fn beneath_home(path: &Vec<char>, bytes: u128, sep: char, whole: bool, head: bool) -> (r: Option<String>)
    ensures
        (match r {
            Some(tail) => Some(tail@),
            None => None,
        }) == beneath(path@, bytes as nat, sep, whole, head),
{
    if whole {
        return Some(String::new());
    }
    match chars_in(path, bytes) {
        None => None,
        Some(n) => if head && n < path.len() && (path[n] == sep || path[n] == other_sep(sep)) {
            assert(path@.subrange(n + 1, path@.len() as int) =~= path@.skip(n as int + 1));
            Some(from_range(path, n + 1, path.len()))
        } else {
            None
        },
    }
}

fn strip_home(path: &Vec<char>, home: &str, sep: char) -> (r: Option<String>)
    ensures
        (match r {
            Some(tail) => Some(tail@),
            None => None,
        }) == under_home(path@, home@, sep),
{
    let home = without_separators(&chars_of(home));
    if home.len() == 0 {
        return None;
    }
    assert(path@.take(path@.len() as int) =~= path@);
    let whole = same_upto(path, path.len(), &home, sep);
    let bytes = bytes_of(&home);
    let head = match chars_in(path, bytes) {
        Some(n) => same_upto(path, n, &home, sep),
        None => false,
    };
    beneath_home(path, bytes, sep, whole, head)
}

fn abbreviate(segment: &str, style: PathStyle) -> (r: String)
    ensures
        r@ == abbreviated(segment@, style),
{
    let chars = chars_of(segment);
    if style != PathStyle::Fish || same(segment, "~") || chars.len() == 0 {
        return segment.to_owned();
    }
    if chars[0] == '.' && chars.len() > 1 {
        assert(chars@.subrange(0, 2) =~= chars@.take(2));
        from_range(&chars, 0, 2)
    } else {
        assert(chars@.subrange(0, 1) =~= chars@.take(1));
        from_range(&chars, 0, 1)
    }
}

fn assemble(root: String, list: &Vec<String>, style: PathStyle, sep: char) -> (r: Parts)
    ensures
        r@ == parts_of(root@, texts(list@), style, sep),
{
    let ghost all = texts(list@);
    if list.len() == 0 {
        return Parts { root, parent: String::new(), name: String::new() };
    }
    let last: usize = list.len() - 1;
    let ghost front = all.drop_last();
    let mut parent = String::new();
    let mut i: usize = 0;
    proof {
        assert(front.take(0) =~= Seq::<Seq<char>>::empty());
        assert(parent@ =~= Seq::<char>::empty());
    }
    while i < last
        invariant
            i <= last,
            last == list@.len() - 1,
            all == texts(list@),
            front == all.drop_last(),
            parent@ == parent_of(front.take(i as int), style, sep),
        decreases last - i,
    {
        assert(front.take(i + 1).drop_last() =~= front.take(i as int));
        assert(front.take(i + 1).last() == list@[i as int]@);
        parent = concat2(&parent, abbreviate(&list[i], style).as_str());
        parent.push(sep);
        assert(parent@ =~= parent_of(front.take(i + 1), style, sep));
        i += 1;
    }
    assert(front.take(front.len() as int) =~= front);
    assert(all.last() == list@[last as int]@);
    Parts { root, parent, name: list[last].clone() }
}

/// Cuts a path as the style asks.
pub fn split(path: &str, style: PathStyle, home: Option<&str>) -> (r: Parts)
    ensures
        r@ == cut(
            path@,
            style,
            match home {
                Some(home) => Some(home@),
                None => None,
            },
        ),
{
    let chars = chars_of(path);
    let (root, rest, sep) = split_root(&chars);
    let collapsed = match home {
        Some(home) => if style == PathStyle::Full {
            None
        } else {
            strip_home(&chars, home, sep)
        },
        None => None,
    };
    match collapsed {
        Some(tail) => {
            let mut list: Vec<String> = Vec::new();
            list.push("~".to_owned());
            let mut more = segments_of(&tail, sep);
            let ghost beneath = more@;
            list.append(&mut more);
            assert(texts(list@) =~= seq!["~"@] + texts(beneath));
            let none = String::new();
            assert(none@ =~= Seq::<char>::empty());
            assemble(none, &list, style, sep)
        },
        None => assemble(root, &segments_of(&rest, sep), style, sep),
    }
}

/// How a path reads in a style.
pub fn render(path: &str, style: PathStyle, home: Option<&str>) -> (r: String)
    ensures
        r@ == rendered(
            path@,
            style,
            match home {
                Some(home) => Some(home@),
                None => None,
            },
        ),
{
    if style == PathStyle::Full {
        return path.to_owned();
    }
    let parts = split(path, style, home);
    if style == PathStyle::Fish {
        return concat3(&parts.root, &parts.parent, &parts.name);
    }
    proof {
        reveal_strlit("");
        reveal_strlit(" ");
        assert(" "@ =~= seq![' ']);
        if parts.parent@.len() == 0 {
            assert(parts.parent@ =~= ""@);
        }
    }
    if same(&parts.parent, "") {
        concat2(&parts.root, &parts.name)
    } else {
        concat2(concat3(&parts.name, " ", &parts.root).as_str(), &parts.parent)
    }
}

/// The full style is the identity: home directory and all, a path reads as it
/// is written.
pub proof fn full_is_the_identity(path: Seq<char>, home: Option<Seq<char>>)
    ensures
        rendered(path, PathStyle::Full, home) == path,
{
}

/// A path's name is never abbreviated: whatever the style, it is the last
/// segment as it stands.
pub proof fn a_name_is_kept_whole(root: Seq<char>, list: Seq<Seq<char>>, style: PathStyle, sep: char)
    requires
        list.len() > 0,
    ensures
        parts_of(root, list, style, sep).name == list.last(),
        parts_of(root, list, style, sep).root == root,
{
}

/// A home of separators alone collapses nothing.
pub proof fn separators_are_no_home(path: Seq<char>, sep: char)
    ensures
        under_home(path, seq!['/'], sep) is None,
        under_home(path, seq!['\\'], sep) is None,
{
    assert(seq!['/'].drop_last() =~= Seq::<char>::empty());
    assert(seq!['\\'].drop_last() =~= Seq::<char>::empty());
    reveal_with_fuel(trim_separators, 3);
}

} // verus!

//! How a path is cut into its parts, shortened and placed in a workspace.

use vstd::prelude::*;

#[allow(unused_imports)]
use crate::path_style::{
    abbreviated, backslashed, char_bytes, cut, cut_at, other_separator, parent_of, parts_of, past_segments,
    rendered, root_of, same_place, segments, text_bytes, trim_separators, under_home, PathStyle,
};
#[allow(unused_imports)]
use crate::paths::{
    components, is_separator, last_name, lies_in, names_component, normal_components, parts, prefix, same_component,
    segment_end, PrefixKind,
};
#[allow(unused_imports)]
use crate::side::Platform;
#[allow(unused_imports)]
use crate::text::{either, lowered, split_where};

verus! {

/// Paths are separated by slashes, and on Windows by backslashes too.
pub proof fn what_separates_a_path(c: char)
    ensures
        is_separator(c, Platform::Unix) <==> c == '/',
        is_separator(c, Platform::Windows) <==> c == '/' || c == '\\',
        other_separator('\\') == '/',
        other_separator('/') == '/',
{
}

proof fn splitting_gives_a_piece(s: Seq<char>, is_sep: spec_fn(char) -> bool)
    ensures
        split_where(s, is_sep).len() > 0,
    decreases s.len(),
{
    if s.len() > 0 {
        splitting_gives_a_piece(s.drop_last(), is_sep);
    }
}

proof fn a_name_behind_a_separator_is_a_piece(rest: Seq<char>, sep: char, name: Seq<char>, is_sep: spec_fn(char) -> bool)
    requires
        is_sep(sep),
        forall|i: int| 0 <= i < name.len() ==> !is_sep(#[trigger] name[i]),
    ensures
        split_where(rest + seq![sep] + name, is_sep) == split_where(rest, is_sep).push(name),
    decreases name.len(),
{
    let whole = rest + seq![sep] + name;
    let before = split_where(rest, is_sep);
    if name.len() == 0 {
        assert(whole.drop_last() =~= rest);
        assert(whole.last() == sep);
        assert(name =~= Seq::empty());
    } else {
        let front = name.drop_last();
        assert forall|i: int| 0 <= i < front.len() implies !is_sep(#[trigger] front[i]) by {
            assert(front[i] == name[i]);
        }
        a_name_behind_a_separator_is_a_piece(rest, sep, front, is_sep);
        assert(whole.drop_last() =~= rest + seq![sep] + front);
        assert(whole.last() == name.last());
        assert(!is_sep(name[name.len() - 1]));
        let parts = before.push(front);
        assert(parts.drop_last() =~= before);
        assert(front.push(name.last()) =~= name);
    }
}

proof fn one_more_is_kept(list: Seq<Seq<char>>, last: Seq<char>, keep: spec_fn(Seq<char>) -> bool)
    ensures
        list.push(last).filter(keep) == if keep(last) {
            list.filter(keep).push(last)
        } else {
            list.filter(keep)
        },
{
    reveal(Seq::filter);
    assert(list.push(last).drop_last() =~= list);
}

/// A name behind a separator is one more component, and an empty one or a
/// single dot none.
pub proof fn a_name_adds_a_component(rest: Seq<char>, sep: char, name: Seq<char>, platform: Platform)
    requires
        is_separator(sep, platform),
        forall|i: int| 0 <= i < name.len() ==> !is_separator(#[trigger] name[i], platform),
    ensures
        name.len() > 0 && name != seq!['.'] ==> normal_components(rest + seq![sep] + name, false, platform)
            == normal_components(rest, false, platform).push(name),
        name.len() == 0 || name == seq!['.'] ==> normal_components(rest + seq![sep] + name, false, platform)
            == normal_components(rest, false, platform),
{
    reveal_strlit(".");
    assert("."@ =~= seq!['.']);
    let is_sep = |c: char| parts(c, false, platform);
    let keep = |piece: Seq<char>| names_component(piece, false);
    assert forall|i: int| 0 <= i < name.len() implies !is_sep(#[trigger] name[i]) by {}
    a_name_behind_a_separator_is_a_piece(rest, sep, name, is_sep);
    one_more_is_kept(split_where(rest, is_sep), name, keep);
}

/// A path from the root on Unix is the root and the names below it.
pub proof fn a_rooted_path_is_its_root_and_names(rest: Seq<char>)
    ensures
        components(seq!['/'] + rest, Platform::Unix) == seq![seq!['/']] + normal_components(
            rest,
            false,
            Platform::Unix,
        ),
{
    let path = seq!['/'] + rest;
    assert(path.skip(0) =~= path);
    assert(path.skip(1) =~= rest);
    assert(Seq::<Seq<char>>::empty() + seq![seq!['/']] =~= seq![seq!['/']]);
}

/// A directory below a workspace lies in it, and so does the workspace itself.
pub proof fn a_directory_below_a_workspace_lies_in_it(workspace: Seq<char>, name: Seq<char>)
    requires
        workspace.len() > 0,
        workspace[0] == '/',
        name.len() > 0,
        forall|i: int| 0 <= i < name.len() ==> #[trigger] name[i] != '/',
    ensures
        lies_in(workspace, workspace, Platform::Unix),
        lies_in(workspace + seq!['/'] + name, workspace, Platform::Unix),
{
    let rest = workspace.skip(1);
    assert(workspace =~= seq!['/'] + rest);
    assert(workspace + seq!['/'] + name =~= seq!['/'] + (rest + seq!['/'] + name));
    a_rooted_path_is_its_root_and_names(rest);
    a_rooted_path_is_its_root_and_names(rest + seq!['/'] + name);
    assert forall|i: int| 0 <= i < name.len() implies !is_separator(#[trigger] name[i], Platform::Unix) by {
        assert(name[i] != '/');
    }
    a_name_adds_a_component(rest, '/', name, Platform::Unix);
}

/// A directory that does not begin with the workspace's own components lies
/// elsewhere: on Unix a single character of one tells them apart, on Windows
/// one that differs in more than the case of a letter.
pub proof fn another_component_lies_elsewhere(cwd: Seq<char>, workspace: Seq<char>, platform: Platform, i: int)
    requires
        0 <= i < components(workspace, platform).len(),
        i >= components(cwd, platform).len() || !same_component(
            components(workspace, platform)[i],
            components(cwd, platform)[i],
            platform,
        ),
    ensures
        !lies_in(cwd, workspace, platform),
{
}

/// Components are the same on Unix where they are equal, and on Windows where
/// they are but for the case of ASCII letters.
pub proof fn when_components_are_the_same(a: Seq<char>, b: Seq<char>)
    ensures
        same_component(a, b, Platform::Unix) <==> a == b,
        same_component(a, a, Platform::Windows),
        same_component(seq!['A'], seq!['a'], Platform::Windows),
        !same_component(seq!['a'], seq!['b'], Platform::Windows),
{
    assert(seq!['a'][0] == 'a' && seq!['b'][0] == 'b');
}

/// The last name of a path from the root is its last component, unless that is
/// the parent's.
pub proof fn the_last_name_of_a_path(rest: Seq<char>, name: Seq<char>)
    requires
        name.len() > 0,
        forall|i: int| 0 <= i < name.len() ==> #[trigger] name[i] != '/',
        name != seq!['.'],
    ensures
        name != seq!['.', '.'] ==> last_name(seq!['/'] + rest + seq!['/'] + name, Platform::Unix) == Some(name),
        name == seq!['.', '.'] ==> last_name(seq!['/'] + rest + seq!['/'] + name, Platform::Unix) is None,
{
    reveal_strlit(".");
    reveal_strlit("..");
    assert("."@ =~= seq!['.']);
    assert(".."@ =~= seq!['.', '.']);
    let path = seq!['/'] + rest + seq!['/'] + name;
    assert(path.skip(0) =~= path);
    assert(path.skip(1) =~= rest + seq!['/'] + name);
    assert forall|i: int| 0 <= i < name.len() implies !is_separator(#[trigger] name[i], Platform::Unix) by {
        assert(name[i] != '/');
    }
    a_name_adds_a_component(rest, '/', name, Platform::Unix);
}

/// A path on Unix has no drive and no share in front; on Windows a letter and a
/// colon are its drive.
pub proof fn what_stands_in_front_of_a_path(path: Seq<char>)
    ensures
        prefix(path, Platform::Unix) == (PrefixKind::Bare, 0nat),
        path.len() >= 2 && 'a' <= path[0] <= 'z' && path[1] == ':' ==> prefix(path, Platform::Windows) == (
            PrefixKind::Drive,
            2nat,
        ),
        path.len() >= 2 && 'A' <= path[0] <= 'Z' && path[1] == ':' ==> prefix(path, Platform::Windows) == (
            PrefixKind::Drive,
            2nat,
        ),
{
}

proof fn no_share_in_front(path: Seq<char>)
    requires
        path.len() == 0 || path[0] != '\\',
    ensures
        !"\\\\?\\UNC\\"@.is_prefix_of(path),
        !"\\\\?\\"@.is_prefix_of(path),
        !"\\\\"@.is_prefix_of(path),
{
    reveal_strlit("\\\\?\\UNC\\");
    reveal_strlit("\\\\?\\");
    reveal_strlit("\\\\");
    assert("\\\\?\\UNC\\"@[0] == '\\' && "\\\\?\\"@[0] == '\\' && "\\\\"@[0] == '\\');
}

/// A path is cut behind its root: a slash, a drive with or without its own
/// root, or nothing where it is relative.
pub proof fn where_a_path_is_cut(rest: Seq<char>, drive: char)
    requires
        'a' <= drive <= 'z' || 'A' <= drive <= 'Z',
    ensures
        root_of(seq!['/'] + rest) == (seq!['/'], rest, '/'),
        root_of(seq![drive, ':', '\\'] + rest) == (seq![drive, ':', '\\'], rest, '\\'),
        root_of(seq![drive, ':', '/'] + rest) == (seq![drive, ':', '\\'], rest, '\\'),
        rest.len() > 0 && rest[0] != '\\' && rest[0] != '/' ==> root_of(seq![drive, ':'] + rest) == (
            seq![drive, ':'],
            rest,
            '\\',
        ),
        rest.len() > 0 && rest[0] != '\\' && rest[0] != '/' && !(rest.len() > 1 && rest[1] == ':') ==> root_of(rest) == (
            Seq::<char>::empty(),
            rest,
            '/',
        ),
{
    let a = seq!['/'] + rest;
    let b = seq![drive, ':', '\\'] + rest;
    let c = seq![drive, ':', '/'] + rest;
    let d = seq![drive, ':'] + rest;
    no_share_in_front(a);
    no_share_in_front(b);
    no_share_in_front(c);
    no_share_in_front(d);
    if rest.len() > 0 && rest[0] != '\\' {
        no_share_in_front(rest);
    }
    assert(a.skip(1) =~= rest);
    assert(b.skip(3) =~= rest);
    assert(c.skip(3) =~= rest);
    assert(d.skip(2) =~= rest);
    assert(d.take(2) =~= seq![drive, ':']);
}

proof fn past_one_segment(s: Seq<char>, n: nat, from: nat, len: nat)
    requires
        n > 0,
        from + len < s.len(),
        forall|i: int| from <= i < from + len ==> #[trigger] s[i] != '\\',
        s[(from + len) as int] == '\\',
    ensures
        past_segments(s, n, from) == past_segments(s, (n - 1) as nat, from + len + 1),
    decreases len,
{
    if len > 0 {
        assert(s[from as int] != '\\');
        past_one_segment(s, n, from + 1, (len - 1) as nat);
    }
}

/// A share is the root of what lies on it: its server and its name, whole.
pub proof fn a_share_is_a_root(server: Seq<char>, share: Seq<char>, rest: Seq<char>)
    requires
        forall|i: int| 0 <= i < server.len() ==> #[trigger] server[i] != '\\',
        forall|i: int| 0 <= i < share.len() ==> #[trigger] share[i] != '\\',
        server != seq!['?'],
    ensures
        root_of(seq!['\\', '\\'] + server + seq!['\\'] + share + seq!['\\'] + rest) == (
            seq!['\\', '\\'] + server + seq!['\\'] + share + seq!['\\'],
            rest,
            '\\',
        ),
{
    reveal_strlit("\\\\?\\UNC\\");
    reveal_strlit("\\\\?\\");
    reveal_strlit("\\\\");
    let root = seq!['\\', '\\'] + server + seq!['\\'] + share + seq!['\\'];
    let path = root + rest;
    assert(path =~= seq!['\\', '\\'] + server + seq!['\\'] + share + seq!['\\'] + rest);
    assert("\\\\"@ =~= path.take(2));
    if "\\\\?\\"@.is_prefix_of(path) || "\\\\?\\UNC\\"@.is_prefix_of(path) {
        if "\\\\?\\UNC\\"@.is_prefix_of(path) {
            assert("\\\\?\\UNC\\"@[2] == '?' && "\\\\?\\UNC\\"@[3] == '\\');
            assert(path.take(8)[2] == '?' && path.take(8)[3] == '\\');
        } else {
            assert("\\\\?\\"@[2] == '?' && "\\\\?\\"@[3] == '\\');
            assert(path.take(4)[2] == '?' && path.take(4)[3] == '\\');
        }
        assert(path[2] == '?' && path[3] == '\\');
        if server.len() == 0 {
            assert(path[2] == '\\');
        } else {
            assert(path[2] == server[0]);
            if server.len() > 1 {
                assert(path[3] == server[1]);
            }
            assert(server =~= seq!['?']);
        }
        assert(false);
    }
    assert forall|i: int| 2 <= i < 2 + server.len() implies #[trigger] path[i] != '\\' by {
        assert(path[i] == server[i - 2]);
    }
    past_one_segment(path, 2, 2, server.len());
    let at = 2 + server.len() + 1;
    assert forall|i: int| at <= i < at + share.len() implies #[trigger] path[i] != '\\' by {
        assert(path[i] == share[i - at]);
    }
    past_one_segment(path, 1, at, share.len());
    assert(path.take(root.len() as int) =~= root);
    assert(path.skip(root.len() as int) =~= rest);
}

/// A name behind a separator is one more segment, and an empty one none.
pub proof fn a_name_adds_a_segment(rest: Seq<char>, name: Seq<char>, sep: char)
    requires
        sep == '/' || sep == '\\',
        forall|i: int| 0 <= i < name.len() ==> #[trigger] name[i] != '/' && (sep == '/' || name[i] != '\\'),
    ensures
        name.len() > 0 ==> segments(rest + seq![sep] + name, sep) == segments(rest, sep).push(name),
        name.len() == 0 ==> segments(rest + seq![sep] + name, sep) == segments(rest, sep),
{
    let is_sep = either(sep, other_separator(sep));
    let keep = |s: Seq<char>| s.len() > 0;
    assert forall|i: int| 0 <= i < name.len() implies !is_sep(#[trigger] name[i]) by {
        assert(name[i] != '/');
    }
    a_name_behind_a_separator_is_a_piece(rest, sep, name, is_sep);
    one_more_is_kept(split_where(rest, is_sep), name, keep);
}

/// In the fish style a directory is its first letter, with the dot in front
/// where it is hidden, and the home directory as it is; in the others it is
/// whole.
pub proof fn how_a_directory_is_shortened(first: char, rest: Seq<char>, name: Seq<char>)
    ensures
        first != '.' && !(first == '~' && rest.len() == 0) ==> abbreviated(seq![first] + rest, PathStyle::Fish) == seq![
            first,
        ],
        rest.len() > 0 ==> abbreviated(seq!['.'] + rest, PathStyle::Fish) == seq!['.', rest[0]],
        abbreviated(seq!['~'], PathStyle::Fish) == seq!['~'],
        abbreviated(name, PathStyle::Zed) == name,
        abbreviated(name, PathStyle::Full) == name,
{
    reveal_strlit("~");
    assert("~"@ =~= seq!['~']);
    let whole = seq![first] + rest;
    assert(whole.take(1) =~= seq![first]);
    if whole == "~"@ {
        assert(whole[0] == '~');
    }
    if rest.len() > 0 {
        let hidden = seq!['.'] + rest;
        assert(hidden[0] == '.');
        assert(hidden != "~"@);
        assert(hidden.take(2) =~= seq!['.', rest[0]]);
    }
    if rest.len() == 0 && first == '.' {
        assert(whole =~= seq!['.']);
    }
}

/// The parent of a path is its directories, shortened each, with a separator
/// behind each.
pub proof fn the_parent_of_a_path(list: Seq<Seq<char>>, last: Seq<char>, style: PathStyle, sep: char)
    ensures
        parent_of(Seq::empty(), style, sep) == Seq::<char>::empty(),
        parent_of(list.push(last), style, sep) == parent_of(list, style, sep) + abbreviated(last, style) + seq![sep],
        parts_of(Seq::empty(), list.push(last), style, sep).name == last,
        parts_of(Seq::empty(), list.push(last), style, sep).parent == parent_of(list, style, sep),
{
    assert(list.push(last).drop_last() =~= list);
}

/// The fish style is root, parent and name; the other puts the name first and
/// the place behind it, where there is a place.
pub proof fn how_a_path_is_written(path: Seq<char>, home: Option<Seq<char>>)
    ensures
        rendered(path, PathStyle::Full, home) == path,
        ({
            let p = cut(path, PathStyle::Fish, home);
            rendered(path, PathStyle::Fish, home) == p.root + p.parent + p.name
        }),
        ({
            let p = cut(path, PathStyle::Zed, home);
            &&& p.parent.len() > 0 ==> rendered(path, PathStyle::Zed, home) == p.name + seq![' '] + p.root + p.parent
            &&& p.parent.len() == 0 ==> rendered(path, PathStyle::Zed, home) == p.root + p.name
        }),
{
}

proof fn the_bytes_of_a_prefix(a: Seq<char>, b: Seq<char>)
    ensures
        cut_at(a + b, text_bytes(a)) == Some(a.len()),
    decreases a.len(),
{
    if a.len() > 0 {
        let rest = a.skip(1);
        the_bytes_of_a_prefix(rest, b);
        assert((a + b).skip(1) =~= rest + b);
        assert((a + b)[0] == a[0]);
        assert(text_bytes(a) == char_bytes(a[0]) + text_bytes(rest));
    }
}

/// What lies below the home directory is what follows it and a separator, and
/// the home directory itself leaves nothing. What only begins like it does not
/// lie below it.
pub proof fn what_lies_below_home(home: Seq<char>, rest: Seq<char>, other: char)
    requires
        home.len() > 0,
        home.last() != '/',
        home.last() != '\\',
        other != '/',
    ensures
        under_home(home, home, '/') == Some(Seq::<char>::empty()),
        under_home(home + seq!['/'] + rest, home, '/') == Some(rest),
        under_home(home + seq![other] + rest, home, '/') is None,
{
    let below = seq!['/'] + rest;
    let beside = seq![other] + rest;
    assert(trim_separators(home) == home);
    the_bytes_of_a_prefix(home, below);
    the_bytes_of_a_prefix(home, beside);
    assert(home + seq!['/'] + rest =~= home + below);
    assert(home + seq![other] + rest =~= home + beside);
    assert((home + below).take(home.len() as int) =~= home);
    assert((home + beside).take(home.len() as int) =~= home);
    assert((home + below).skip(home.len() as int + 1) =~= rest);
    assert((home + below).len() != home.len() && (home + beside).len() != home.len());
    assert((home + beside)[home.len() as int] == other);
    assert((home + below)[home.len() as int] == '/');
}

/// A path below home is written from a tilde on.
pub proof fn a_path_below_home_is_written_from_a_tilde(home: Seq<char>, rest: Seq<char>, style: PathStyle)
    requires
        home.len() > 1,
        home[0] == '/',
        home.last() != '/',
        home.last() != '\\',
        !(style is Full),
    ensures
        cut(home + seq!['/'] + rest, style, Some(home)) == parts_of(
            Seq::empty(),
            seq![seq!['~']] + segments(rest, '/'),
            style,
            '/',
        ),
{
    reveal_strlit("~");
    assert("~"@ =~= seq!['~']);
    what_lies_below_home(home, rest, '!');
    let path = home + seq!['/'] + rest;
    let tail = path.skip(1);
    assert(path =~= seq!['/'] + tail);
    where_a_path_is_cut(tail, 'a');
}

/// A character takes one to four bytes, as UTF-8 has it.
pub proof fn the_bytes_of_a_character(c: char)
    ensures
        1 <= char_bytes(c) <= 4,
        char_bytes(c) == 1 <==> (c as u32) < 0x80,
        char_bytes(c) <= 2 <==> (c as u32) < 0x800,
        char_bytes(c) <= 3 <==> (c as u32) < 0x1_0000,
{
}

/// Two places on Windows are one but for slashes and the case of letters; on
/// Unix only where they are the same.
pub proof fn when_two_places_are_one(a: Seq<char>, b: Seq<char>, i: int)
    ensures
        same_place(a, b, '/') <==> a == b,
        same_place(a, a, '\\'),
        backslashed(a).len() == a.len(),
        0 <= i < a.len() && a[i] == '/' ==> backslashed(a)[i] == '\\',
        0 <= i < a.len() && a[i] != '/' ==> backslashed(a)[i] == a[i],
        same_place(a, b, '\\') <==> lowered(backslashed(a)) == lowered(backslashed(b)),
{
}

proof fn a_segment_ends_at_its_separator(path: Seq<char>, from: nat, len: nat, verbatim: bool)
    requires
        from + len <= path.len(),
        forall|i: int| from <= i < from + len ==> #[trigger] path[i] != '\\' && (verbatim || path[i] != '/'),
        from + len < path.len() ==> path[(from + len) as int] == '\\',
    ensures
        segment_end(path, from, verbatim) == from + len,
    decreases len,
{
    if len > 0 {
        assert(path[from as int] != '\\');
        a_segment_ends_at_its_separator(path, from + 1, (len - 1) as nat, verbatim);
    }
}

/// A name without a separator in it.
pub open spec fn is_one_name(name: Seq<char>) -> bool {
    name.len() > 0 && forall|i: int| 0 <= i < name.len() ==> #[trigger] name[i] != '\\' && name[i] != '/'
}

/// On Windows a server and its share stand in front of a path as one.
pub proof fn a_share_stands_in_front(server: Seq<char>, share: Seq<char>, rest: Seq<char>)
    requires
        is_one_name(server),
        is_one_name(share),
        server != seq!['?'],
        server != seq!['.'],
        rest.len() > 0 ==> rest[0] == '\\',
    ensures
        prefix(seq!['\\', '\\'] + server + seq!['\\'] + share + rest, Platform::Windows) == (
            PrefixKind::Share,
            2 + server.len() + 1 + share.len(),
        ),
{
    let path = seq!['\\', '\\'] + server + seq!['\\'] + share + rest;
    assert forall|i: int| 2 <= i < 2 + server.len() implies #[trigger] path[i] != '\\' && path[i] != '/' by {
        assert(path[i] == server[i - 2]);
    }
    assert(path[2 + server.len() as int] == '\\');
    a_segment_ends_at_its_separator(path, 2, server.len(), false);
    let at = 2 + server.len() + 1;
    assert forall|i: int| at <= i < at + share.len() implies #[trigger] path[i] != '\\' && path[i] != '/' by {
        assert(path[i] == share[i - at]);
    }
    if rest.len() > 0 {
        assert(path[(at + share.len()) as int] == rest[0]);
    }
    a_segment_ends_at_its_separator(path, at, share.len(), false);
    assert(path[2] == server[0]);
    if server.len() == 1 {
        assert(server =~= seq![server[0]]);
    } else {
        assert(path[3] == server[1]);
    }
}

/// A drive or a share behind the verbatim mark belongs to what stands in front.
pub proof fn a_verbatim_mark_stands_in_front(drive: char, server: Seq<char>, share: Seq<char>, rest: Seq<char>)
    requires
        'a' <= drive <= 'z' || 'A' <= drive <= 'Z',
        is_one_name(server),
        is_one_name(share),
        rest.len() > 0 ==> rest[0] == '\\',
    ensures
        prefix(seq!['\\', '\\', '?', '\\', drive, ':'] + rest, Platform::Windows) == (PrefixKind::Verbatim, 6nat),
        prefix(
            seq!['\\', '\\', '?', '\\', 'U', 'N', 'C', '\\'] + server + seq!['\\'] + share + rest,
            Platform::Windows,
        ) == (PrefixKind::Verbatim, 8 + server.len() + 1 + share.len()),
{
    let a = seq!['\\', '\\', '?', '\\', drive, ':'] + rest;
    assert(a[4] == drive && a[5] == ':');
    if rest.len() > 0 {
        assert(a[6] == rest[0]);
    }
    let b = seq!['\\', '\\', '?', '\\', 'U', 'N', 'C', '\\'] + server + seq!['\\'] + share + rest;
    assert forall|i: int| 8 <= i < 8 + server.len() implies #[trigger] b[i] != '\\' && b[i] != '/' by {
        assert(b[i] == server[i - 8]);
    }
    assert(b[8 + server.len() as int] == '\\');
    a_segment_ends_at_its_separator(b, 8, server.len(), true);
    let at = 8 + server.len() + 1;
    assert forall|i: int| at <= i < at + share.len() implies #[trigger] b[i] != '\\' && b[i] != '/' by {
        assert(b[i] == share[i - at]);
    }
    if rest.len() > 0 {
        assert(b[(at + share.len()) as int] == rest[0]);
    }
    a_segment_ends_at_its_separator(b, at, share.len(), true);
}

/// Any other name behind the verbatim mark, and a device, stands in front by
/// itself.
pub proof fn a_device_stands_in_front(name: Seq<char>, rest: Seq<char>)
    requires
        is_one_name(name),
        rest.len() > 0 ==> rest[0] == '\\',
        name != seq!['U', 'N', 'C'],
        !(name.len() == 2 && name[1] == ':'),
    ensures
        prefix(seq!['\\', '\\', '.', '\\'] + name + rest, Platform::Windows) == (PrefixKind::Share, 4 + name.len()),
        prefix(seq!['\\', '\\', '?', '\\'] + name + rest, Platform::Windows) == (PrefixKind::Verbatim, 4 + name.len()),
{
    let a = seq!['\\', '\\', '.', '\\'] + name + rest;
    let b = seq!['\\', '\\', '?', '\\'] + name + rest;
    assert forall|i: int| 4 <= i < 4 + name.len() implies #[trigger] a[i] != '\\' && a[i] != '/' by {
        assert(a[i] == name[i - 4]);
    }
    assert forall|i: int| 4 <= i < 4 + name.len() implies #[trigger] b[i] != '\\' && b[i] != '/' by {
        assert(b[i] == name[i - 4]);
    }
    if rest.len() > 0 {
        assert(a[(4 + name.len()) as int] == rest[0]);
        assert(b[(4 + name.len()) as int] == rest[0]);
    }
    a_segment_ends_at_its_separator(a, 4, name.len(), false);
    a_segment_ends_at_its_separator(b, 4, name.len(), true);
    if crate::paths::names_server(b) {
        assert(b[4] == 'U' && b[5] == 'N' && b[6] == 'C');
        assert(b[7] == '\\' || b[7] == '/');
        if name.len() < 3 {
            assert(b[(4 + name.len()) as int] == rest[0]);
        } else {
            assert(name[0] == b[4] && name[1] == b[5] && name[2] == b[6]);
            if name.len() > 3 {
                assert(b[7] == name[3]);
            }
            assert(name =~= seq!['U', 'N', 'C']);
        }
        assert(false);
    }
    if crate::paths::names_drive(b) {
        assert(b[5] == ':');
        if name.len() == 1 {
            assert(b[5] == rest[0]);
        } else {
            assert(name[1] == ':');
            if name.len() > 2 {
                assert(b[6] == name[2]);
            }
        }
        assert(false);
    }
}

/// A verbatim drive is a root with its mark, and so is a verbatim share.
pub proof fn a_verbatim_mark_is_part_of_the_root(drive: char, server: Seq<char>, share: Seq<char>, rest: Seq<char>)
    requires
        'a' <= drive <= 'z' || 'A' <= drive <= 'Z',
        forall|i: int| 0 <= i < server.len() ==> #[trigger] server[i] != '\\',
        forall|i: int| 0 <= i < share.len() ==> #[trigger] share[i] != '\\',
    ensures
        root_of(seq!['\\', '\\', '?', '\\', drive, ':', '\\'] + rest) == (
            seq!['\\', '\\', '?', '\\', drive, ':', '\\'],
            rest,
            '\\',
        ),
        root_of(
            seq!['\\', '\\', '?', '\\', 'U', 'N', 'C', '\\'] + server + seq!['\\'] + share + seq!['\\'] + rest,
        ) == (
            seq!['\\', '\\', '?', '\\', 'U', 'N', 'C', '\\'] + server + seq!['\\'] + share + seq!['\\'],
            rest,
            '\\',
        ),
{
    reveal_strlit("\\\\?\\UNC\\");
    reveal_strlit("\\\\?\\");
    let head = seq!['\\', '\\', '?', '\\', drive, ':', '\\'];
    let a = head + rest;
    assert("\\\\?\\"@ =~= a.take(4));
    if "\\\\?\\UNC\\"@.is_prefix_of(a) {
        assert("\\\\?\\UNC\\"@[5] == 'N');
        assert(a.take(8)[5] == 'N');
        assert(a[5] == ':');
        assert(false);
    }
    assert(a.skip(4)[0] == drive && a.skip(4)[1] == ':' && a.skip(4)[2] == '\\');
    assert(a.take(7) =~= head);
    assert(a.skip(7) =~= rest);
    let mark = seq!['\\', '\\', '?', '\\', 'U', 'N', 'C', '\\'];
    let root = mark + server + seq!['\\'] + share + seq!['\\'];
    let b = root + rest;
    assert(b =~= mark + server + seq!['\\'] + share + seq!['\\'] + rest);
    assert("\\\\?\\UNC\\"@ =~= b.take(8));
    assert forall|i: int| 8 <= i < 8 + server.len() implies #[trigger] b[i] != '\\' by {
        assert(b[i] == server[i - 8]);
    }
    past_one_segment(b, 2, 8, server.len());
    let at = 8 + server.len() + 1;
    assert forall|i: int| at <= i < at + share.len() implies #[trigger] b[i] != '\\' by {
        assert(b[i] == share[i - at]);
    }
    past_one_segment(b, 1, at, share.len());
    assert(b.take(root.len() as int) =~= root);
    assert(b.skip(root.len() as int) =~= rest);
}

/// A path that does not begin with the home directory does not lie below it,
/// however long it is.
pub proof fn what_lies_elsewhere_than_home(path: Seq<char>, home: Seq<char>)
    requires
        home.len() > 0,
        home.last() != '/',
        home.last() != '\\',
        !home.is_prefix_of(path),
    ensures
        under_home(path, home, '/') is None,
{
    assert(trim_separators(home) == home);
    if path == home {
        assert(home =~= path.take(home.len() as int));
    }
    if let Some(n) = cut_at(path, text_bytes(home)) {
        a_cut_is_within(path, text_bytes(home));
        if path.take(n as int) == home {
            assert(home.len() == n);
            assert(home =~= path.take(home.len() as int));
        }
    }
}

proof fn a_cut_is_within(s: Seq<char>, bytes: nat)
    ensures
        cut_at(s, bytes) matches Some(n) ==> n <= s.len(),
    decreases s.len(),
{
    if bytes > 0 && s.len() > 0 && char_bytes(s[0]) <= bytes {
        a_cut_is_within(s.skip(1), (bytes - char_bytes(s[0])) as nat);
    }
}

/// Without a home directory, or with one of separators alone, nothing lies
/// below it.
pub proof fn no_home_no_tilde(path: Seq<char>, style: PathStyle, sep: char)
    ensures
        under_home(path, Seq::empty(), sep) is None,
        under_home(path, seq!['/'], sep) is None,
        cut(path, style, None) == parts_of(root_of(path).0, segments(root_of(path).1, root_of(path).2), style, root_of(path).2),
{
    assert(seq!['/'].drop_last() =~= Seq::<char>::empty());
    reveal_with_fuel(trim_separators, 2);
}

/// A dot that begins a path is a name of it, alone or before a separator.
pub proof fn a_dot_in_front_is_kept(rest: Seq<char>)
    ensures
        components(seq!['.'], Platform::Unix).len() > 0 && components(seq!['.'], Platform::Unix)[0] == seq!['.'],
        components(seq!['.', '/'] + rest, Platform::Unix).len() > 0 && components(
            seq!['.', '/'] + rest,
            Platform::Unix,
        )[0] == seq!['.'],
        components(seq!['.'], Platform::Windows).len() > 0 && components(seq!['.'], Platform::Windows)[0] == seq!['.'],
{
    reveal_strlit(".");
    assert("."@ =~= seq!['.']);
    let alone = seq!['.'];
    assert(alone.skip(0) =~= alone);
    let more = seq!['.', '/'] + rest;
    assert(more.skip(0) =~= more);
    assert(more[0] == '.' && more[1] == '/');
}

/// Where no server is named there is no share in front, and behind the
/// verbatim mark the share follows the empty name.
pub proof fn a_nameless_server_has_no_share(share: Seq<char>, rest: Seq<char>)
    requires
        is_one_name(share),
        rest.len() > 0 ==> rest[0] == '\\',
    ensures
        prefix(seq!['\\', '\\', '\\'] + share + rest, Platform::Windows) == (PrefixKind::Bare, 0nat),
        prefix(seq!['\\', '\\', '?', '\\', 'U', 'N', 'C', '\\', '\\'] + share + rest, Platform::Windows) == (
            PrefixKind::Verbatim,
            9 + share.len(),
        ),
{
    let a = seq!['\\', '\\', '\\'] + share + rest;
    assert(a[2] == '\\');
    let b = seq!['\\', '\\', '?', '\\', 'U', 'N', 'C', '\\', '\\'] + share + rest;
    assert(b[8] == '\\');
    a_segment_ends_at_its_separator(b, 8, 0, true);
    assert forall|i: int| 9 <= i < 9 + share.len() implies #[trigger] b[i] != '\\' && b[i] != '/' by {
        assert(b[i] == share[i - 9]);
    }
    if rest.len() > 0 {
        assert(b[(9 + share.len()) as int] == rest[0]);
    }
    a_segment_ends_at_its_separator(b, 9, share.len(), true);
}

/// A server behind the verbatim mark stands in front by itself where no share
/// follows it, and one without the mark not at all.
pub proof fn a_server_without_a_share(server: Seq<char>)
    requires
        is_one_name(server),
        server != seq!['?'],
        server != seq!['.'],
    ensures
        prefix(seq!['\\', '\\', '?', '\\', 'U', 'N', 'C', '\\'] + server, Platform::Windows) == (
            PrefixKind::Verbatim,
            8 + server.len(),
        ),
        prefix(seq!['\\', '\\'] + server, Platform::Windows) == (PrefixKind::Bare, 0nat),
{
    let a = seq!['\\', '\\', '?', '\\', 'U', 'N', 'C', '\\'] + server;
    assert forall|i: int| 8 <= i < 8 + server.len() implies #[trigger] a[i] != '\\' && a[i] != '/' by {
        assert(a[i] == server[i - 8]);
    }
    a_segment_ends_at_its_separator(a, 8, server.len(), true);
    let b = seq!['\\', '\\'] + server;
    assert forall|i: int| 2 <= i < 2 + server.len() implies #[trigger] b[i] != '\\' && b[i] != '/' by {
        assert(b[i] == server[i - 2]);
    }
    a_segment_ends_at_its_separator(b, 2, server.len(), false);
    assert(b[2] == server[0]);
    if server.len() > 1 {
        assert(b[3] == server[1]);
    }
}

} // verus!

//! Paths as the list of their components, and which workspace a directory
//! lies in.

use vstd::prelude::*;

use crate::side::Platform;
use crate::text::{chars_of, from_range, same, split_either};
#[allow(unused_imports)]
use crate::text::{either, lower_ascii, opt_text, split_where, texts};

verus! {

/// Whether the character separates two components.
pub open spec fn is_separator(c: char, platform: Platform) -> bool {
    c == '/' || (platform is Windows && c == '\\')
}

/// Whether the character separates two components below the prefix. Below a
/// verbatim prefix only a backslash does.
pub open spec fn parts(c: char, verbatim: bool, platform: Platform) -> bool {
    if verbatim {
        c == '\\'
    } else {
        is_separator(c, platform)
    }
}

/// A piece between separators that is a component: an empty one names no
/// directory, and neither does a single dot, except below a verbatim prefix.
pub open spec fn names_component(piece: Seq<char>, verbatim: bool) -> bool {
    piece.len() > 0 && (verbatim || piece != "."@)
}

/// The components that the separators of a text part.
pub open spec fn normal_components(rest: Seq<char>, verbatim: bool, platform: Platform) -> Seq<
    Seq<char>,
> {
    split_where(rest, |c: char| parts(c, verbatim, platform)).filter(
        |piece: Seq<char>| names_component(piece, verbatim),
    )
}

/// What a Windows path starts with.
#[derive(Clone, Copy, PartialEq, Eq, Structural)]
pub enum PrefixKind {
    /// Nothing of the kind.
    Bare,
    /// A drive: `C:`.
    Drive,
    /// A share of a server, or a device: `\\server\share`, `\\.\COM1`. There is
    /// a root below either, written or not.
    Share,
    /// A path that is taken as it is spelled: `\\?\C:`.
    Verbatim,
}

/// What a path starts with, and how long that is.
struct Prefix {
    kind: PrefixKind,
    len: usize,
}

/// Whether a path starts with two separators, however they are written.
pub open spec fn starts_at_server(path: Seq<char>) -> bool {
    path.len() >= 2 && is_separator(path[0], Platform::Windows) && is_separator(
        path[1],
        Platform::Windows,
    )
}

/// Whether a path starts with `\\?\`, written with backslashes alone.
pub open spec fn starts_verbatim(path: Seq<char>) -> bool {
    path.len() >= 4 && path[0] == '\\' && path[1] == '\\' && path[2] == '?' && path[3] == '\\'
}

/// Whether a verbatim path goes on with `UNC\`.
pub open spec fn names_server(path: Seq<char>) -> bool {
    path.len() >= 8 && path[4] == 'U' && path[5] == 'N' && path[6] == 'C' && is_separator(
        path[7],
        Platform::Windows,
    )
}

/// Whether a verbatim path goes on with a drive and nothing more in that
/// segment.
pub open spec fn names_drive(path: Seq<char>) -> bool {
    path.len() >= 6 && is_letter(path[4]) && path[5] == ':' && (path.len() == 6 || is_separator(
        path[6],
        Platform::Windows,
    ))
}

/// Whether a path starts with `\\.\`, however its separators are written.
pub open spec fn starts_at_device(path: Seq<char>) -> bool {
    starts_at_server(path) && path.len() >= 4 && path[2] == '.' && is_separator(
        path[3],
        Platform::Windows,
    )
}

/// The length of the prefix of a path that starts verbatim: the drive, the
/// server with its share where one follows, or the first segment.
pub open spec fn verbatim_len(path: Seq<char>) -> nat {
    if names_server(path) {
        let server = segment_end(path, 8, true);
        let share = segment_end(path, server + 1, true);
        if share > server + 1 {
            share
        } else {
            server
        }
    } else if names_drive(path) {
        6
    } else {
        segment_end(path, 4, true)
    }
}

/// The length of `\\server\share` at the start of a path; nothing where one of
/// the two names is missing.
pub open spec fn share_len(path: Seq<char>) -> nat {
    let server = segment_end(path, 2, false);
    let share = segment_end(path, server + 1, false);
    if server > 2 && share > server + 1 {
        share
    } else {
        0
    }
}

/// The kind of prefix a path has, and its length. Only Windows paths have one.
pub open spec fn prefix(path: Seq<char>, platform: Platform) -> (PrefixKind, nat) {
    if platform is Unix {
        (PrefixKind::Bare, 0)
    } else if starts_verbatim(path) {
        (PrefixKind::Verbatim, verbatim_len(path))
    } else if starts_at_device(path) {
        (PrefixKind::Share, segment_end(path, 4, false))
    } else if starts_at_server(path) {
        if share_len(path) > 0 {
            (PrefixKind::Share, share_len(path))
        } else {
            (PrefixKind::Bare, 0)
        }
    } else if path.len() >= 2 && path[1] == ':' && is_letter(path[0]) {
        (PrefixKind::Drive, 2)
    } else {
        (PrefixKind::Bare, 0)
    }
}

/// An ASCII letter, which is what a drive is called.
pub open spec fn is_letter(c: char) -> bool {
    'a' <= c <= 'z' || 'A' <= c <= 'Z'
}

/// Where the segment that starts at `from` ends: at the next separator, or at
/// the end of the path.
pub open spec fn segment_end(path: Seq<char>, from: nat, verbatim: bool) -> nat
    decreases path.len() - from,
{
    if from >= path.len() {
        path.len()
    } else if parts(path[from as int], verbatim, Platform::Windows) {
        from
    } else {
        segment_end(path, from + 1, verbatim)
    }
}

/// Whether a separator follows the prefix.
pub open spec fn is_rooted(rest: Seq<char>, platform: Platform) -> bool {
    rest.len() > 0 && is_separator(rest[0], platform)
}

/// What stands below the prefix and the root.
pub open spec fn below_root(rest: Seq<char>, platform: Platform) -> Seq<char> {
    if is_rooted(rest, platform) {
        rest.skip(1)
    } else {
        rest
    }
}

/// The components of a path: its prefix, its root, and the names below it.
/// Repeated separators, a separator at the end and single dots that do not
/// begin the path are no components.
pub open spec fn components(path: Seq<char>, platform: Platform) -> Seq<Seq<char>> {
    let (kind, at) = prefix(path, platform);
    let rest = path.skip(at as int);
    let lead = if kind is Bare {
        Seq::empty()
    } else {
        seq![path.take(at as int)]
    };
    let root = if is_rooted(rest, platform) || kind is Share {
        seq![seq![if platform is Windows { '\\' } else { '/' }]]
    } else if kind is Bare && (rest == "."@ || (rest.len() > 1 && rest[0] == '.' && is_separator(
        rest[1],
        platform,
    ))) {
        seq!["."@]
    } else {
        Seq::empty()
    };
    lead + root + normal_components(below_root(rest, platform), kind is Verbatim, platform)
}

/// Two characters that Windows does not tell apart in an ASCII name.
pub open spec fn same_ascii(a: char, b: char) -> bool {
    lower_ascii(a) == lower_ascii(b)
}

/// Two components that name the same directory.
pub open spec fn same_component(a: Seq<char>, b: Seq<char>, platform: Platform) -> bool {
    match platform {
        Platform::Unix => a == b,
        Platform::Windows => a.len() == b.len() && forall|i: int|
            0 <= i < a.len() ==> same_ascii(#[trigger] a[i], b[i]),
    }
}

/// Whether the directory lies in the workspace, component by component.
pub open spec fn lies_in(cwd: Seq<char>, workspace: Seq<char>, platform: Platform) -> bool {
    let want = components(workspace, platform);
    let have = components(cwd, platform);
    &&& want.len() <= have.len()
    &&& forall|i: int| 0 <= i < want.len() ==> same_component(#[trigger] want[i], have[i], platform)
}

/// The workspace at `at` holds the directory, and no workspace that holds it
/// has more components; of those with as many it is the last.
pub open spec fn deepest_at(
    cwd: Seq<char>,
    workspaces: Seq<Seq<char>>,
    platform: Platform,
    at: int,
) -> bool {
    &&& 0 <= at < workspaces.len()
    &&& lies_in(cwd, workspaces[at], platform)
    &&& forall|j: int|
        #![trigger workspaces[j]]
        0 <= j < workspaces.len() && lies_in(cwd, workspaces[j], platform) ==> {
            let mine = components(workspaces[at], platform).len();
            let theirs = components(workspaces[j], platform).len();
            theirs < mine || (theirs == mine && j <= at)
        }
}

/// Where among the workspaces the one stands that the directory lies in, by
/// longest path; of those with as many components it is the last.
pub open spec fn deepest(cwd: Seq<char>, workspaces: Seq<Seq<char>>, platform: Platform) -> Option<int>
    decreases workspaces.len(),
{
    if workspaces.len() == 0 {
        None
    } else {
        let before = deepest(cwd, workspaces.drop_last(), platform);
        if lies_in(cwd, workspaces.last(), platform) && (before matches Some(at) ==> components(
            workspaces[at],
            platform,
        ).len() <= components(workspaces.last(), platform).len()) {
            Some(workspaces.len() - 1)
        } else {
            before
        }
    }
}

/// The workspace a directory lies in, by longest path.
pub open spec fn workspace_of(
    cwd: Seq<char>,
    workspaces: Seq<Seq<char>>,
    platform: Platform,
) -> Option<Seq<char>> {
    match deepest(cwd, workspaces, platform) {
        Some(at) => Some(workspaces[at]),
        None => None,
    }
}

/// The workspace that is found holds the directory and no other that holds it
/// lies deeper; and one is found whenever one holds the directory.
pub proof fn the_workspace_found_is_the_deepest(
    cwd: Seq<char>,
    workspaces: Seq<Seq<char>>,
    platform: Platform,
)
    ensures
        deepest(cwd, workspaces, platform) matches Some(at) ==> deepest_at(cwd, workspaces, platform, at),
        deepest(cwd, workspaces, platform) is None ==> forall|j: int|
            0 <= j < workspaces.len() ==> !lies_in(cwd, #[trigger] workspaces[j], platform),
    decreases workspaces.len(),
{
    if workspaces.len() > 0 {
        let front = workspaces.drop_last();
        the_workspace_found_is_the_deepest(cwd, front, platform);
        let before = deepest(cwd, front, platform);
        assert forall|j: int| 0 <= j < workspaces.len() - 1 implies #[trigger] workspaces[j] == front[j] by {}
        if let Some(at) = before {
            assert(workspaces[at] == front[at]);
        }
    }
}

fn separates(c: char, platform: Platform) -> (r: bool)
    ensures
        r == is_separator(c, platform),
{
    c == '/' || (platform == Platform::Windows && c == '\\')
}

fn segment_end_of(path: &Vec<char>, from: usize, verbatim: bool) -> (r: usize)
    ensures
        r == segment_end(path@, from as nat, verbatim),
        r <= path@.len(),
        from <= path@.len() ==> from <= r,
{
    let mut i: usize = from;
    while i < path.len()
        invariant
            from <= i,
            from <= path@.len() ==> i <= path@.len(),
            segment_end(path@, from as nat, verbatim) == segment_end(path@, i as nat, verbatim),
        decreases path@.len() - i,
    {
        if path[i] == '\\' || (!verbatim && path[i] == '/') {
            return i;
        }
        i += 1;
    }
    path.len()
}

fn is_drive_letter(c: char) -> (r: bool)
    ensures
        r == is_letter(c),
{
    (c >= 'a' && c <= 'z') || (c >= 'A' && c <= 'Z')
}

fn verbatim_len_of(path: &Vec<char>) -> (r: usize)
    requires
        starts_verbatim(path@),
    ensures
        r == verbatim_len(path@),
        r <= path@.len(),
{
    if path.len() >= 8 && path[4] == 'U' && path[5] == 'N' && path[6] == 'C' && separates(
        path[7],
        Platform::Windows,
    ) {
        let server = segment_end_of(path, 8, true);
        if server == path.len() {
            return server;
        }
        let share = segment_end_of(path, server + 1, true);
        return if share > server + 1 {
            share
        } else {
            server
        };
    }
    if path.len() >= 6 && is_drive_letter(path[4]) && path[5] == ':' && (path.len() == 6
        || separates(path[6], Platform::Windows)) {
        return 6;
    }
    segment_end_of(path, 4, true)
}

fn share_len_of(path: &Vec<char>) -> (r: usize)
    requires
        starts_at_server(path@),
    ensures
        r == share_len(path@),
        r <= path@.len(),
{
    let server = segment_end_of(path, 2, false);
    if server == 2 || server == path.len() {
        return 0;
    }
    let share = segment_end_of(path, server + 1, false);
    if share > server + 1 {
        share
    } else {
        0
    }
}

fn prefix_of(path: &Vec<char>, platform: Platform) -> (r: Prefix)
    ensures
        (r.kind, r.len as nat) == prefix(path@, platform),
        r.len <= path@.len(),
{
    let bare = Prefix { kind: PrefixKind::Bare, len: 0 };
    if platform == Platform::Unix || path.len() < 2 {
        return bare;
    }
    if path.len() >= 4 && path[0] == '\\' && path[1] == '\\' && path[2] == '?' && path[3] == '\\' {
        return Prefix { kind: PrefixKind::Verbatim, len: verbatim_len_of(path) };
    }
    if separates(path[0], platform) && separates(path[1], platform) {
        if path.len() >= 4 && path[2] == '.' && separates(path[3], platform) {
            return Prefix { kind: PrefixKind::Share, len: segment_end_of(path, 4, false) };
        }
        let len = share_len_of(path);
        return if len > 0 {
            Prefix { kind: PrefixKind::Share, len }
        } else {
            bare
        };
    }
    if path[1] == ':' && is_drive_letter(path[0]) {
        return Prefix { kind: PrefixKind::Drive, len: 2 };
    }
    bare
}

/// The names that the separators of a text part.
fn names_in(rest: &str, verbatim: bool, platform: Platform) -> (r: Vec<String>)
    ensures
        texts(r@) == normal_components(rest@, verbatim, platform),
{
    let mut r: Vec<String> = Vec::new();
    let ghost sep = |c: char| parts(c, verbatim, platform);
    let pieces = if verbatim {
        proof {
            assert(either('\\', '\\') =~= sep);
        }
        split_either(rest, '\\', '\\')
    } else if platform == Platform::Windows {
        proof {
            assert(either('/', '\\') =~= sep);
        }
        split_either(rest, '/', '\\')
    } else {
        proof {
            assert(either('/', '/') =~= sep);
        }
        split_either(rest, '/', '/')
    };
    let ghost all = texts(pieces@);
    let ghost keep = |piece: Seq<char>| names_component(piece, verbatim);
    let mut i: usize = 0;
    proof {
        assert(all == split_where(rest@, sep));
        reveal(Seq::filter);
        assert(all.take(0) == Seq::<Seq<char>>::empty());
        assert(texts(r@) =~= all.take(0).filter(keep));
    }
    while i < pieces.len()
        invariant
            i <= pieces@.len(),
            all == texts(pieces@),
            keep == (|piece: Seq<char>| names_component(piece, verbatim)),
            texts(r@) == all.take(i as int).filter(keep),
        decreases pieces@.len() - i,
    {
        let piece = &pieces[i];
        let ghost before = r@;
        proof {
            reveal(Seq::filter);
            assert(all.take(i + 1).drop_last() == all.take(i as int));
            assert(all.take(i + 1).last() == piece@);
        }
        if !piece.as_str().is_empty() && (verbatim || !same(piece, ".")) {
            r.push(piece.clone());
            assert(texts(r@) == texts(before).push(piece@));
            assert(texts(r@) == all.take(i as int).filter(keep).push(piece@));
        }
        i += 1;
    }
    assert(all.take(all.len() as int) == all);
    r
}

/// The last name of a path: none when the path ends at its root, in a step up,
/// or in a dot that stands for itself.
pub open spec fn last_name(path: Seq<char>, platform: Platform) -> Option<Seq<char>> {
    let (kind, at) = prefix(path, platform);
    let names = normal_components(
        below_root(path.skip(at as int), platform),
        kind is Verbatim,
        platform,
    );
    if names.len() > 0 && names.last() != ".."@ && names.last() != "."@ {
        Some(names.last())
    } else {
        None
    }
}

/// What stands below the prefix and the root of a path.
fn below(cs: &Vec<char>, at: usize, platform: Platform) -> (r: String)
    requires
        at <= cs@.len(),
    ensures
        r@ == below_root(cs@.skip(at as int), platform),
{
    let from: usize = if at < cs.len() && separates(cs[at], platform) {
        at + 1
    } else {
        at
    };
    let rest = from_range(cs, from, cs.len());
    assert(rest@ =~= below_root(cs@.skip(at as int), platform));
    rest
}

/// The last name of a path.
pub fn file_name(path: &str, platform: Platform) -> (r: Option<String>)
    ensures
        opt_text(r) == last_name(path@, platform),
{
    let cs = chars_of(path);
    let lead = prefix_of(&cs, platform);
    let rest = below(&cs, lead.len, platform);
    let mut names = names_in(rest.as_str(), lead.kind == PrefixKind::Verbatim, platform);
    let ghost all = names@;
    assert(texts(all).len() == all.len());
    match names.pop() {
        Some(name) => {
            assert(texts(all).last() == name@);
            if same(name.as_str(), "..") || same(name.as_str(), ".") {
                None
            } else {
                Some(name)
            }
        },
        None => None,
    }
}

/// The components of a path.
pub fn components_of(path: &str, platform: Platform) -> (r: Vec<String>)
    ensures
        texts(r@) == components(path@, platform),
{
    let cs = chars_of(path);
    let found = prefix_of(&cs, platform);
    let at = found.len;
    let ghost rest = path@.skip(at as int);
    let bare = found.kind == PrefixKind::Bare;
    let mut r: Vec<String> = Vec::new();
    if !bare {
        let lead = from_range(&cs, 0, at);
        assert(lead@ == path@.take(at as int));
        r.push(lead);
        assert(texts(r@) == seq![path@.take(at as int)]);
    } else {
        assert(texts(r@) == Seq::<Seq<char>>::empty());
    }
    let ghost lead = texts(r@);
    let rooted = at < cs.len() && separates(cs[at], platform);
    proof {
        reveal_strlit(".");
        reveal_strlit("/");
        reveal_strlit("\\");
    }
    let ghost before = r@;
    if rooted || found.kind == PrefixKind::Share {
        let root = if platform == Platform::Windows {
            "\\"
        } else {
            "/"
        };
        r.push(root.to_owned());
        assert(root@ == seq![if platform is Windows { '\\' } else { '/' }]);
        assert(texts(r@) == lead.push(root@));
        assert(texts(r@) == lead + seq![root@]);
    } else if bare && cs.len() > 0 && cs[0] == '.' && (cs.len() == 1 || separates(cs[1], platform)) {
        r.push(".".to_owned());
        assert(rest == path@);
        assert(rest.len() == 1 ==> rest == "."@);
        assert(texts(r@) == lead + seq!["."@]);
    } else {
        assert(rest == "."@ ==> rest[0] == '.');
        assert(lead + Seq::<Seq<char>>::empty() == lead);
    }
    let ghost head = texts(r@);
    let below = below(&cs, at, platform);
    let mut names = names_in(below.as_str(), found.kind == PrefixKind::Verbatim, platform);
    let ghost tail = names@;
    let ghost before_names = r@;
    r.append(&mut names);
    assert(texts(r@) =~= texts(before_names) + texts(tail));
    r
}

fn lower(c: char) -> (r: char)
    ensures
        r == lower_ascii(c),
{
    if c >= 'A' && c <= 'Z' {
        let n: u8 = c as u8;
        (n + 32) as char
    } else {
        c
    }
}

fn components_match(a: &str, b: &str, platform: Platform) -> (r: bool)
    ensures
        r == same_component(a@, b@, platform),
{
    if platform == Platform::Unix {
        return same(a, b);
    }
    let x = chars_of(a);
    let y = chars_of(b);
    if x.len() != y.len() {
        return false;
    }
    let mut i: usize = 0;
    while i < x.len()
        invariant
            x@ == a@,
            y@ == b@,
            x@.len() == y@.len(),
            i <= x@.len(),
            platform is Windows,
            forall|k: int| 0 <= k < i ==> same_ascii(#[trigger] a@[k], b@[k]),
        decreases x@.len() - i,
    {
        if lower(x[i]) != lower(y[i]) {
            assert(!same_ascii(a@[i as int], b@[i as int]));
            return false;
        }
        i += 1;
    }
    true
}

/// Component-wise prefix test.  Case-insensitive on Windows, where a
/// multiplexer reports the cwd as the shell spelled it.
pub fn starts_with(cwd: &str, workspace: &str, platform: Platform) -> (r: bool)
    ensures
        r == lies_in(cwd@, workspace@, platform),
{
    let want = components_of(workspace, platform);
    let have = components_of(cwd, platform);
    let ghost w = components(workspace@, platform);
    let ghost h = components(cwd@, platform);
    if want.len() > have.len() {
        assert(w.len() == want@.len() && h.len() == have@.len());
        return false;
    }
    let mut i: usize = 0;
    while i < want.len()
        invariant
            w == texts(want@),
            h == texts(have@),
            w == components(workspace@, platform),
            h == components(cwd@, platform),
            i <= want@.len() <= have@.len(),
            forall|k: int| 0 <= k < i ==> same_component(#[trigger] w[k], h[k], platform),
        decreases want@.len() - i,
    {
        assert(w[i as int] == want@[i as int]@);
        assert(h[i as int] == have@[i as int]@);
        if !components_match(&want[i], &have[i], platform) {
            return false;
        }
        i += 1;
    }
    assert(w.len() == want@.len() && h.len() == have@.len());
    true
}

/// The workspace a directory lies in, by longest path prefix.
pub fn deepest_workspace(cwd: &str, workspaces: &Vec<String>, platform: Platform) -> (r: Option<String>)
    ensures
        opt_text(r) == workspace_of(cwd@, texts(workspaces@), platform),
{
    let ghost all = texts(workspaces@);
    let mut best: Option<usize> = None;
    let mut depth: usize = 0;
    let mut i: usize = 0;
    proof {
        assert(all.take(0) == Seq::<Seq<char>>::empty());
    }
    while i < workspaces.len()
        invariant
            all == texts(workspaces@),
            i <= workspaces@.len(),
            match (best, deepest(cwd@, all.take(i as int), platform)) {
                (None, None) => true,
                (Some(at), Some(k)) => at == k && at < i && depth == components(all[at as int], platform).len(),
                _ => false,
            },
        decreases workspaces@.len() - i,
    {
        assert(all[i as int] == workspaces@[i as int]@);
        assert(all.take(i + 1).drop_last() == all.take(i as int));
        assert(all.take(i + 1).last() == all[i as int]);
        if starts_with(cwd, &workspaces[i], platform) {
            let parts = components_of(&workspaces[i], platform);
            let n = parts.len();
            assert(texts(parts@).len() == n);
            if best.is_none() || n >= depth {
                best = Some(i);
                depth = n;
            }
        }
        i += 1;
    }
    assert(all.take(all.len() as int) == all);
    match best {
        None => None,
        Some(at) => Some(workspaces[at].clone()),
    }
}

} // verus!

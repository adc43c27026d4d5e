//! Which server a pane belongs to, and how a program is run where that server
//! runs.

use vstd::prelude::*;

use crate::text::{chars_of, concat2, join, same};
#[allow(unused_imports)]
use crate::text::{joined, slices, texts};

verus! {

/// What the library was built for: some answers differ on Windows.
#[derive(Debug, Clone, Copy, PartialEq, Eq, Structural)]
pub enum Platform {
    Unix,
    Windows,
}

/// Which server a pane belongs to.  Two servers on one machine cannot see
/// each other, so this is part of a pane's identity.
#[derive(Debug, PartialEq, Eq, Hash)]
pub enum Side {
    Native,
    /// Named distro, as `wsl.exe -d` spells it.
    Wsl(String),
}

/// A side with the characters of its distro.
pub enum SideView {
    Native,
    Wsl(Seq<char>),
}

impl View for Side {
    type V = SideView;

    open spec fn view(&self) -> SideView {
        match self {
            Side::Native => SideView::Native,
            Side::Wsl(distro) => SideView::Wsl(distro@),
        }
    }
}

impl Clone for Side {
    fn clone(&self) -> (r: Self)
        ensures
            r == *self,
    {
        match self {
            Side::Native => Side::Native,
            Side::Wsl(distro) => Side::Wsl(distro.clone()),
        }
    }
}

/// How a side is spelled outside the process.
pub open spec fn side_name(side: SideView) -> Seq<char> {
    match side {
        SideView::Native => "native"@,
        SideView::Wsl(distro) => "wsl:"@ + distro,
    }
}

/// The side a spelling names, when it names one.
pub open spec fn named_side(name: Seq<char>) -> Option<SideView> {
    if name == "native"@ {
        Some(SideView::Native)
    } else if "wsl:"@.is_prefix_of(name) && name.len() > "wsl:"@.len() {
        Some(SideView::Wsl(name.skip("wsl:"@.len() as int)))
    } else {
        None
    }
}

/// The view of an optional side.
pub open spec fn opt_side(side: Option<Side>) -> Option<SideView> {
    match side {
        Some(s) => Some(s@),
        None => None,
    }
}

/// Every side but a distro with an empty name reads back from the spelling it
/// gives itself.
pub proof fn a_named_side_reads_back(side: SideView)
    requires
        side != SideView::Wsl(Seq::<char>::empty()),
    ensures
        named_side(side_name(side)) == Some(side),
{
    reveal_strlit("native");
    reveal_strlit("wsl:");
    match side {
        SideView::Native => {},
        SideView::Wsl(distro) => {
            let name = "wsl:"@ + distro;
            assert(name[0] == 'w');
            assert(name.subrange(0, 4) == "wsl:"@);
            assert(name.skip(4) == distro);
            if distro.len() == 0 {
                assert(distro == Seq::<char>::empty());
            }
        },
    }
}

/// Two sides with different names are different, and the names tell them
/// apart.
pub proof fn side_names_are_distinct(a: SideView, b: SideView)
    requires
        side_name(a) == side_name(b),
    ensures
        a == b,
{
    reveal_strlit("native");
    reveal_strlit("wsl:");
    match (a, b) {
        (SideView::Wsl(x), SideView::Wsl(y)) => {
            assert(("wsl:"@ + x).skip(4) == x);
            assert(("wsl:"@ + y).skip(4) == y);
        },
        (SideView::Native, SideView::Wsl(y)) => {
            assert(("wsl:"@ + y)[0] == 'w');
            assert("native"@[0] == 'n');
        },
        (SideView::Wsl(x), SideView::Native) => {
            assert(("wsl:"@ + x)[0] == 'w');
            assert("native"@[0] == 'n');
        },
        _ => {},
    }
}

/// A character that needs no quoting in a POSIX shell word.
pub open spec fn plain_in_shell(c: char) -> bool {
    ||| 'a' <= c <= 'z'
    ||| 'A' <= c <= 'Z'
    ||| '0' <= c <= '9'
    ||| c == '-' || c == '_' || c == '.' || c == '/' || c == '='
}

/// The text with every single quote closed, escaped and opened again.
pub open spec fn quotes_escaped(s: Seq<char>) -> Seq<char>
    decreases s.len(),
{
    if s.len() == 0 {
        Seq::empty()
    } else {
        let rest = quotes_escaped(s.drop_last());
        if s.last() == '\'' {
            rest + seq!['\'', '\\', '\'', '\'']
        } else {
            rest.push(s.last())
        }
    }
}

/// One argument as a POSIX shell reads it back.
pub open spec fn shell_quoted(arg: Seq<char>) -> Seq<char> {
    if arg.len() > 0 && (forall|i: int| 0 <= i < arg.len() ==> plain_in_shell(#[trigger] arg[i])) {
        arg
    } else {
        seq!['\''] + quotes_escaped(arg) + seq!['\'']
    }
}

/// A program and its arguments as one shell command line.
pub open spec fn shell_line(program: Seq<char>, args: Seq<Seq<char>>) -> Seq<char> {
    joined(
        (seq![program] + args).map_values(|a: Seq<char>| shell_quoted(a)),
        seq![' '],
    )
}

/// The argv with which `wsl.exe` runs a command line in a distro's login
/// shell.
pub open spec fn login_shell_argv(distro: Seq<char>, line: Seq<char>) -> Seq<Seq<char>> {
    seq!["-d"@, distro, "--exec"@, "sh"@, "-lc"@, line]
}

/// Where a POSIX shell stands in a word.
pub enum Reading {
    Bare,
    Quoted,
    Escaped,
}

/// The characters a POSIX shell takes from a word, starting in `state`: inside
/// single quotes every character stands for itself, outside them a backslash
/// takes the next character.
pub open spec fn shell_reads(s: Seq<char>, state: Reading) -> Seq<char>
    decreases s.len(),
{
    if s.len() == 0 {
        Seq::empty()
    } else {
        let c = s[0];
        let rest = s.drop_first();
        match state {
            Reading::Bare => if c == '\'' {
                shell_reads(rest, Reading::Quoted)
            } else if c == '\\' {
                shell_reads(rest, Reading::Escaped)
            } else {
                seq![c] + shell_reads(rest, Reading::Bare)
            },
            Reading::Quoted => if c == '\'' {
                shell_reads(rest, Reading::Bare)
            } else {
                seq![c] + shell_reads(rest, Reading::Quoted)
            },
            Reading::Escaped => seq![c] + shell_reads(rest, Reading::Bare),
        }
    }
}

proof fn plain_reads_as_itself(arg: Seq<char>)
    requires
        forall|i: int| 0 <= i < arg.len() ==> plain_in_shell(#[trigger] arg[i]),
    ensures
        shell_reads(arg, Reading::Bare) == arg,
    decreases arg.len(),
{
    if arg.len() > 0 {
        assert(plain_in_shell(arg[0]));
        let rest = arg.drop_first();
        assert forall|i: int| 0 <= i < rest.len() implies plain_in_shell(#[trigger] rest[i]) by {
            assert(rest[i] == arg[i + 1]);
        }
        plain_reads_as_itself(rest);
        assert(seq![arg[0]] + rest == arg);
    }
}

proof fn escaped_reads_back(arg: Seq<char>, tail: Seq<char>)
    ensures
        shell_reads(quotes_escaped(arg) + tail, Reading::Quoted) == arg + shell_reads(tail, Reading::Quoted),
    decreases arg.len(),
{
    if arg.len() == 0 {
        assert(quotes_escaped(arg) + tail == tail);
        assert(arg + shell_reads(tail, Reading::Quoted) == shell_reads(tail, Reading::Quoted));
    } else {
        let front = arg.drop_last();
        let c = arg.last();
        if c == '\'' {
            let mark = seq!['\'', '\\', '\'', '\''];
            let t = mark + tail;
            assert(quotes_escaped(arg) + tail == quotes_escaped(front) + t);
            escaped_reads_back(front, t);
            let t1 = t.drop_first();
            let t2 = t1.drop_first();
            let t3 = t2.drop_first();
            assert(t3.drop_first() == tail);
            assert(shell_reads(t3, Reading::Bare) == shell_reads(tail, Reading::Quoted));
            assert(shell_reads(t2, Reading::Escaped) == seq!['\''] + shell_reads(t3, Reading::Bare));
            assert(shell_reads(t1, Reading::Bare) == shell_reads(t2, Reading::Escaped));
            assert(shell_reads(t, Reading::Quoted) == shell_reads(t1, Reading::Bare));
            assert(front + (seq!['\''] + shell_reads(tail, Reading::Quoted)) == arg + shell_reads(tail, Reading::Quoted));
        } else {
            let t = seq![c] + tail;
            assert(quotes_escaped(arg) + tail == quotes_escaped(front) + t);
            escaped_reads_back(front, t);
            assert(t.drop_first() == tail);
            assert(front + (seq![c] + shell_reads(tail, Reading::Quoted)) == arg + shell_reads(tail, Reading::Quoted));
        }
    }
}

/// A quoted argument reaches the program in the distro as the argument it was:
/// a POSIX shell reads the quoted spelling back to the same characters.
pub proof fn a_quoted_argument_reads_back(arg: Seq<char>)
    ensures
        shell_reads(shell_quoted(arg), Reading::Bare) == arg,
{
    if arg.len() > 0 && (forall|i: int| 0 <= i < arg.len() ==> plain_in_shell(#[trigger] arg[i])) {
        plain_reads_as_itself(arg);
    } else {
        let q = seq!['\''];
        let s = shell_quoted(arg);
        assert(s.drop_first() == quotes_escaped(arg) + q);
        escaped_reads_back(arg, q);
        assert(q.drop_first() == Seq::<char>::empty());
        assert(shell_reads(q.drop_first(), Reading::Bare) == Seq::<char>::empty());
        assert(shell_reads(q, Reading::Quoted) == Seq::<char>::empty());
        assert(arg + Seq::<char>::empty() == arg);
    }
}

/// Single-quote a POSIX argument, since WSL invocations are one `sh -lc`
/// string rather than an argv.
pub fn sh_quote(arg: &str) -> (r: String)
    ensures
        r@ == shell_quoted(arg@),
{
    let cs = chars_of(arg);
    let mut plain = cs.len() > 0;
    let mut escaped = String::new();
    let mut i: usize = 0;
    while i < cs.len()
        invariant
            cs@ == arg@,
            i <= cs@.len(),
            escaped@ == quotes_escaped(arg@.take(i as int)),
            plain == (arg@.len() > 0 && forall|k: int| 0 <= k < i ==> plain_in_shell(#[trigger] arg@[k])),
        decreases cs@.len() - i,
    {
        let c = cs[i];
        assert(arg@.take(i + 1).drop_last() == arg@.take(i as int));
        assert(arg@.take(i + 1).last() == c);
        if c == '\'' {
            escaped.push('\'');
            escaped.push('\\');
            escaped.push('\'');
            escaped.push('\'');
            assert(escaped@ == quotes_escaped(arg@.take(i as int)) + seq!['\'', '\\', '\'', '\'']);
        } else {
            escaped.push(c);
        }
        let fine = (c >= 'a' && c <= 'z') || (c >= 'A' && c <= 'Z') || (c >= '0' && c <= '9')
            || c == '-' || c == '_' || c == '.' || c == '/' || c == '=';
        plain = plain && fine;
        i += 1;
    }
    assert(arg@.take(arg@.len() as int) == arg@);
    if plain {
        return arg.to_owned();
    }
    let mut r = String::new();
    r.push('\'');
    r.append(escaped.as_str());
    r.push('\'');
    assert(r@ == seq!['\''] + quotes_escaped(arg@) + seq!['\'']);
    r
}

/// Program and argv with which `wsl.exe` hands `command` to a distro.
pub fn exec_invocation(distro: &str, command: &[&str]) -> (r: (String, Vec<String>))
    ensures
        r.0@ == "wsl.exe"@,
        texts(r.1@) == seq!["-d"@, distro@, "--exec"@] + slices(command@),
{
    let mut argv: Vec<String> = Vec::new();
    argv.push("-d".to_owned());
    argv.push(distro.to_owned());
    argv.push("--exec".to_owned());
    let mut i: usize = 0;
    while i < command.len()
        invariant
            i <= command@.len(),
            texts(argv@) == seq!["-d"@, distro@, "--exec"@] + slices(command@.take(i as int)),
        decreases command@.len() - i,
    {
        let ghost before = argv@;
        argv.push(command[i].to_owned());
        assert(texts(argv@) == texts(before).push(command@[i as int]@));
        assert(slices(command@.take(i + 1)) == slices(command@.take(i as int)).push(command@[i as int]@));
        i += 1;
    }
    assert(command@.take(command@.len() as int) == command@);
    ("wsl.exe".to_owned(), argv)
}

/// Owned copies of the arguments.
pub fn owned_args(args: &[&str]) -> (r: Vec<String>)
    ensures
        texts(r@) == slices(args@),
{
    let mut r: Vec<String> = Vec::new();
    let mut i: usize = 0;
    while i < args.len()
        invariant
            i <= args@.len(),
            texts(r@) == slices(args@.take(i as int)),
        decreases args@.len() - i,
    {
        let ghost before = r@;
        r.push(args[i].to_owned());
        assert(texts(r@) == texts(before).push(args@[i as int]@));
        assert(slices(args@.take(i + 1)) == slices(args@.take(i as int)).push(args@[i as int]@));
        i += 1;
    }
    assert(args@.take(args@.len() as int) == args@);
    r
}

impl Side {
    /// Whether two sides are the same server.
    pub fn same_side(&self, other: &Side) -> (r: bool)
        ensures
            r == (self@ == other@),
    {
        match (self, other) {
            (Side::Native, Side::Native) => true,
            (Side::Wsl(a), Side::Wsl(b)) => same(a, b),
            _ => false,
        }
    }

    /// How a side is spelled outside the process: `native`, or `wsl:<distro>`
    /// as `wsl.exe -d` names it.  Two servers on one machine cannot see each
    /// other, so a pane named to a client without its side is not named at
    /// all.
    pub fn name(&self) -> (r: String)
        ensures
            r@ == side_name(self@),
    {
        match self {
            Side::Native => "native".to_owned(),
            Side::Wsl(distro) => concat2("wsl:", distro),
        }
    }

    /// Read back what `name` wrote.  A `wsl:` with nothing after it names no
    /// server, so it is refused rather than resolving to a distro called the
    /// empty string.
    pub fn parse(name: &str) -> (r: Option<Self>)
        ensures
            opt_side(r) == named_side(name@),
    {
        if same(name, "native") {
            return Some(Side::Native);
        }
        match crate::text::after_prefix(name, "wsl:") {
            None => None,
            Some(distro) => {
                assert(name@.skip("wsl:"@.len() as int) == distro@);
                assert(distro@.len() == name@.len() - "wsl:"@.len());
                if distro.as_str().is_empty() {
                    None
                } else {
                    Some(Side::Wsl(distro))
                }
            },
        }
    }

    /// How a row names this side.  `None` on the native one, whose name would
    /// be the same word on every row of a machine that has only it.
    pub fn label(&self) -> (r: Option<String>)
        ensures
            r is None <==> self@ is Native,
            r is Some ==> r->0@ == side_name(self@),
    {
        match self {
            Side::Native => None,
            Side::Wsl(distro) => Some(concat2("wsl:", distro)),
        }
    }

    /// Program and argv that run `program <args>` on this side.  WSL goes
    /// through a login shell because these binaries install to
    /// `~/.local/bin`, which is not on the PATH `wsl.exe -e` inherits.
    pub fn command(&self, program: &str, args: &[&str]) -> (r: (String, Vec<String>))
        ensures
            self@ is Native ==> r.0@ == program@ && texts(r.1@) == slices(args@),
            self@ matches SideView::Wsl(distro) ==> {
                &&& r.0@ == "wsl.exe"@
                &&& texts(r.1@) == login_shell_argv(distro, shell_line(program@, slices(args@)))
            },
    {
        match self {
            Side::Native => (program.to_owned(), owned_args(args)),
            Side::Wsl(distro) => {
                let mut words: Vec<String> = Vec::new();
                words.push(sh_quote(program));
                let ghost full = seq![program@] + slices(args@);
                let ghost quoted = full.map_values(|a: Seq<char>| shell_quoted(a));
                let mut i: usize = 0;
                proof {
                    assert(texts(words@) == quoted.take(1));
                }
                while i < args.len()
                    invariant
                        i <= args@.len(),
                        full == seq![program@] + slices(args@),
                        quoted == full.map_values(|a: Seq<char>| shell_quoted(a)),
                        texts(words@) == quoted.take(i + 1),
                    decreases args@.len() - i,
                {
                    let ghost before = words@;
                    words.push(sh_quote(args[i]));
                    assert(full[i + 1] == args@[i as int]@);
                    assert(texts(words@) == texts(before).push(shell_quoted(args@[i as int]@)));
                    assert(quoted.take(i + 2) == quoted.take(i + 1).push(quoted[i + 1]));
                    i += 1;
                }
                assert(quoted.take(quoted.len() as int) == quoted);
                let line = join(&words, " ");
                proof {
                    reveal_strlit(" ");
                    assert(" "@ == seq![' ']);
                }
                let command: [&str; 3] = ["sh", "-lc", line.as_str()];
                let r = exec_invocation(distro, &command);
                assert(texts(r.1@) == login_shell_argv(distro@, line@));
                r
            },
        }
    }
}

} // verus!

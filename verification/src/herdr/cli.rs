//! What is asked of the `herdr` binary and how its answers are read.
//!
//! Running the binary is the caller's part: it hands over what came back.

use vstd::prelude::*;

use crate::herdr::events::{line_of, present_in};
#[allow(unused_imports)]
use crate::herdr::events::{present, request_line};
use crate::herdr::model::PollError;
#[allow(unused_imports)]
use crate::herdr::model::PollErrorView;
use crate::herdr::wire::{error_code, one_text_in, running_session_in};
#[allow(unused_imports)]
use crate::herdr::wire::{envelope_code, one_text, running_session};
use crate::json::{object, parse_bytes, text, Json};
#[allow(unused_imports)]
use crate::json::{document, document_of_bytes, is_record, member, member_trees, opt_tree, text_of, Tree};
use crate::multiplexer::model::CreatedPane;
use crate::side::Side;
#[allow(unused_imports)]
use crate::side::{login_shell_argv, shell_line, SideView};
use crate::text::{concat2, decimal_text, from_utf8_lossy, join, owned_trim_end, trim};
#[allow(unused_imports)]
use crate::text::{decimal, joined, lossy_text, slices, texts, trim_right, trimmed};

verus! {

/// How long the attach gesture waits for herdr before calling it a refusal,
/// in milliseconds.  herdr answers a socket on the same machine in
/// milliseconds; three seconds covers a cold process start behind an
/// on-access scanner and still keeps a wedged server from taking the window
/// with it.
pub const GESTURE_TIMEOUT: u64 = 3_000;

/// How every gesture that ran out its time begins its refusal, so a herdr that
/// went silent can be told from one that said no.
pub const NO_ANSWER: &'static str = "herdr did not answer";

/// How long a failed call's stderr is waited for once the child is gone, in
/// milliseconds.
pub const STDERR_GRACE: u64 = 500;

/// What one herdr call printed.  A request sent down the bridge has answered
/// once a line comes back, since the bridge is killed rather than left to
/// exit.
#[derive(Debug, PartialEq, Eq)]
pub struct Reply {
    pub ok: bool,
    pub stdout: Vec<u8>,
    pub stderr: String,
}

/// Why a herdr call gave no reply.
#[derive(Debug, PartialEq, Eq)]
pub enum CallError {
    /// Nothing came back inside the call's limit.
    NoAnswer,
    Failed(String),
}

/// A call that takes this many milliseconds is logged at info, so a stall
/// shows in a persistent log without every listing writing a line.
pub const SLOW_CALL: u64 = 1_000;

/// How a call reached its side, named in the line that times it.
#[derive(Debug, Clone, Copy, PartialEq, Eq, Structural)]
pub enum Transport {
    Helper,
    Spawn,
}

/// How loud the line that times a call is.
#[derive(Debug, Clone, Copy, PartialEq, Eq, Structural)]
pub enum CallLevel {
    Info,
    Debug,
}

/// How loud the line for a call is.
pub open spec fn level_of(call: Result<Reply, CallError>, elapsed: u64) -> CallLevel {
    if elapsed >= SLOW_CALL || call is Err {
        CallLevel::Info
    } else {
        CallLevel::Debug
    }
}

/// How loud the line for a call is: one that was slow or gave no reply is
/// worth more than one that answered.
pub fn call_level(call: &Result<Reply, CallError>, elapsed: u64) -> (r: CallLevel)
    ensures
        r == level_of(*call, elapsed),
        r == (if elapsed >= SLOW_CALL || call is Err {
            CallLevel::Info
        } else {
            CallLevel::Debug
        }),
{
    if elapsed >= SLOW_CALL || call.is_err() {
        CallLevel::Info
    } else {
        CallLevel::Debug
    }
}

/// What came of a call, in the words of the line that times it.
pub open spec fn outcome_words(call: Result<Reply, CallError>) -> Seq<char> {
    match call {
        Ok(reply) => if reply.ok {
            "answered"@
        } else {
            "failed"@
        },
        Err(CallError::NoAnswer) => "got no answer"@,
        Err(CallError::Failed(_)) => "could not run"@,
    }
}

/// The name of a transport.
pub open spec fn transport_name(transport: Transport) -> Seq<char> {
    match transport {
        Transport::Helper => "Helper"@,
        Transport::Spawn => "Spawn"@,
    }
}

/// The line that times a call.  `side` and `elapsed` are as the log writes
/// them.
pub fn call_line(
    side: &str,
    args: &Vec<String>,
    transport: Transport,
    call: &Result<Reply, CallError>,
    elapsed: &str,
) -> (r: String)
    ensures
        r@ == "herdr ("@ + side@ + "): `"@ + joined(texts(args@), " "@) + "` over "@ + transport_name(
            transport,
        ) + " "@ + outcome_words(*call) + " after "@ + elapsed@,
{
    let outcome = match call {
        Ok(reply) => if reply.ok {
            "answered"
        } else {
            "failed"
        },
        Err(CallError::NoAnswer) => "got no answer",
        Err(CallError::Failed(_)) => "could not run",
    };
    let name = match transport {
        Transport::Helper => "Helper",
        Transport::Spawn => "Spawn",
    };
    let words = join(args, " ");
    let mut line = "herdr (".to_owned();
    line.append(side);
    line.append("): `");
    line.append(words.as_str());
    line.append("` over ");
    line.append(name);
    line.append(" ");
    line.append(outcome);
    line.append(" after ");
    line.append(elapsed);
    line
}

/// The words of the relay an event stream reads through.
pub open spec fn bridge_words() -> Seq<Seq<char>> {
    seq!["remote-api-bridge"@]
}

/// The words of a client attached to a session.
pub open spec fn session_words(session: Seq<char>) -> Seq<Seq<char>> {
    seq!["session"@, "attach"@, session]
}

/// The program to start, and its arguments, to run `words` on a side.
pub open spec fn run_on(side: SideView, program: Seq<char>, words: Seq<Seq<char>>) -> (Seq<char>, Seq<Seq<char>>) {
    match side {
        SideView::Native => (program, words),
        SideView::Wsl(distro) => ("wsl.exe"@, login_shell_argv(distro, shell_line(program, words))),
    }
}

/// The long-lived relay an event stream reads through.  herdr resolves the
/// socket itself, so the stream reaches the same server every other call
/// here does.
pub fn bridge_command(side: &Side, program: &str) -> (r: (String, Vec<String>))
    ensures
        (r.0@, texts(r.1@)) == run_on(side@, program@, bridge_words()),
        side@ is Native ==> r.0@ == program@ && texts(r.1@) == seq!["remote-api-bridge"@],
        side@ matches SideView::Wsl(distro) ==> r.0@ == "wsl.exe"@ && texts(r.1@) == login_shell_argv(
            distro,
            shell_line(program@, seq!["remote-api-bridge"@]),
        ),
{
    let args: [&str; 1] = ["remote-api-bridge"];
    assert(slices(args@) =~= seq!["remote-api-bridge"@]);
    side.command(program, &args)
}

/// The request that brings one pane to the front.
pub open spec fn focus_tree(pane_id: Seq<char>) -> Tree {
    Tree::Object(
        seq![
            ("id"@, Tree::Text("alacritree:focus"@)),
            ("method"@, Tree::Text("pane.focus"@)),
            ("params"@, Tree::Object(seq![("pane_id"@, Tree::Text(pane_id))])),
        ],
    )
}

/// The request that brings one pane to the front, as a document.
pub fn focus_document(pane_id: &str) -> (r: Json)
    ensures
        r@ == focus_tree(pane_id@),
{
    let mut params: Vec<(String, Json)> = Vec::new();
    params.push(("pane_id".to_owned(), text(pane_id)));
    assert(member_trees(params@) =~= seq![("pane_id"@, Tree::Text(pane_id@))]);
    let params = object(params);
    let mut members: Vec<(String, Json)> = Vec::new();
    members.push(("id".to_owned(), text("alacritree:focus")));
    members.push(("method".to_owned(), text("pane.focus")));
    members.push(("params".to_owned(), params));
    assert(member_trees(members@) =~= seq![
        ("id"@, Tree::Text("alacritree:focus"@)),
        ("method"@, Tree::Text("pane.focus"@)),
        ("params"@, params@),
    ]);
    object(members)
}

/// The socket request that brings one pane to the front of the user's own
/// herdr window.  The CLI has no way to name a pane with no agent in it:
/// `agent focus` refuses one, and `tab focus` lands on whichever pane of the
/// tab herdr last focused.
pub fn focus_request(pane_id: &str) -> (r: String)
    ensures
        r@ == request_line(focus_tree(pane_id@)),
{
    line_of(&focus_document(pane_id))
}

/// What an answer to a one-shot request says: accepted, refused with a
/// message, or a line that is no answer.
pub open spec fn answer_of(answer: Option<Tree>, line: Seq<char>) -> Result<(), Seq<char>> {
    match answer {
        Some(answer) => if !is_record(answer, 2, 2) {
            Err(trimmed(line))
        } else {
            match present(answer, "error"@, 1) {
                Some(refusal) => match one_text(refusal, "message"@) {
                    Some(message) => Err(message),
                    None => Err(trimmed(line)),
                },
                None => if present(answer, "result"@, 0) is Some {
                    Ok(())
                } else {
                    Err(trimmed(line))
                },
            }
        },
        None => Err(trimmed(line)),
    }
}

/// The characters of a refusal.
pub open spec fn refusal_view(r: Result<(), String>) -> Result<(), Seq<char>> {
    match r {
        Ok(_) => Ok(()),
        Err(message) => Err(message@),
    }
}

/// The answer of a line that has been read.
pub fn answer_in(answer: &Option<Json>, line: &str) -> (r: Result<(), String>)
    ensures
        refusal_view(r) == answer_of(opt_tree(*answer), line@),
{
    let answer = match answer {
        Some(answer) => answer,
        None => return Err(trim(line)),
    };
    if !answer.is_record(2, 2) {
        return Err(trim(line));
    }
    if let Some(refusal) = present_in(answer, "error", 1) {
        return match one_text_in(refusal, "message") {
            Some(message) => Err(message),
            None => Err(trim(line)),
        };
    }
    if present_in(answer, "result", 0).is_some() {
        Ok(())
    } else {
        Err(trim(line))
    }
}

/// herdr's answer to a one-shot request, or the message it refused with.  A
/// field that is given twice counts with its last value.
pub fn decode_answer(line: &str) -> (r: Result<(), String>)
    ensures
        refusal_view(r) == answer_of(document(line@), line@),
{
    answer_in(&Json::parse(line), line)
}

/// What focusing a pane came to, in the words the user is shown.
pub open spec fn focus_outcome(call: Result<Reply, CallError>) -> Result<(), Seq<char>> {
    match call {
        Err(CallError::NoAnswer) => Err(NO_ANSWER@ + " while focusing the pane"@),
        Err(CallError::Failed(e)) => Err("failed to focus herdr pane: "@ + e@),
        Ok(reply) => if !reply.ok {
            Err("failed to focus herdr pane: "@ + trimmed(reply.stderr@))
        } else {
            let line = lossy_text(reply.stdout@);
            match answer_of(document(line), line) {
                Ok(_) => Ok(()),
                Err(message) => Err("herdr refused to focus the pane: "@ + message),
            }
        },
    }
}

/// Read what focusing one pane in the user's own herdr window came to.  A
/// refusal carries herdr's message rather than its code, since it is shown to
/// the user, and a server that does not answer in time refuses the same way.
pub fn focus_pane(call: &Result<Reply, CallError>) -> (r: Result<(), String>)
    ensures
        refusal_view(r) == focus_outcome(*call),
{
    match call {
        Err(CallError::NoAnswer) => Err(concat2(NO_ANSWER, " while focusing the pane")),
        Err(CallError::Failed(e)) => Err(concat2("failed to focus herdr pane: ", e)),
        Ok(reply) => {
            if !reply.ok {
                return Err(concat2("failed to focus herdr pane: ", trim(&reply.stderr).as_str()));
            }
            let line = from_utf8_lossy(&reply.stdout);
            match decode_answer(&line) {
                Ok(_) => Ok(()),
                Err(message) => Err(concat2("herdr refused to focus the pane: ", &message)),
            }
        },
    }
}

/// The characters of a name or of the refusal to give one.
pub open spec fn name_view(r: Result<String, String>) -> Result<Seq<char>, Seq<char>> {
    match r {
        Ok(name) => Ok(name@),
        Err(message) => Err(message@),
    }
}

/// The name herdr gives an unnamed session.
pub const DEFAULT_SESSION: &'static str = "default";

/// The session to attach to, out of what listing the sessions came to.
pub open spec fn session_outcome(call: Result<Reply, CallError>) -> Result<Seq<char>, Seq<char>> {
    match call {
        Err(CallError::NoAnswer) => Err(NO_ANSWER@ + " while listing its sessions"@),
        Err(CallError::Failed(_)) => Ok(DEFAULT_SESSION@),
        Ok(reply) => if !reply.ok {
            Ok(DEFAULT_SESSION@)
        } else {
            match running_session(document_of_bytes(reply.stdout@)) {
                Some(name) => Ok(name),
                None => Ok(DEFAULT_SESSION@),
            }
        },
    }
}

/// The running session to attach to on a side, out of what `herdr session list
/// --json` came to.  An answer that names nothing falls back to `default`, the
/// name herdr gives an unnamed session; a server that does not answer in time
/// is an `Err`, because attaching to a guessed name would only park the wedged
/// wait inside the new session.
pub fn running_session_name(call: &Result<Reply, CallError>) -> (r: Result<String, String>)
    ensures
        name_view(r) == session_outcome(*call),
{
    match call {
        Err(CallError::NoAnswer) => Err(concat2(NO_ANSWER, " while listing its sessions")),
        Err(CallError::Failed(_)) => Ok(DEFAULT_SESSION.to_owned()),
        Ok(reply) => {
            if !reply.ok {
                return Ok(DEFAULT_SESSION.to_owned());
            }
            match running_session_in(&parse_bytes(&reply.stdout)) {
                Some(name) => Ok(name),
                None => Ok(DEFAULT_SESSION.to_owned()),
            }
        },
    }
}

/// The words that open a tab.
pub open spec fn create_words(cwd: Option<Seq<char>>, focus: bool) -> Seq<Seq<char>> {
    let base = seq![
        "tab"@,
        "create"@,
        if focus {
            "--focus"@
        } else {
            "--no-focus"@
        },
    ];
    match cwd {
        Some(dir) => base + seq!["--cwd"@, dir],
        None => base,
    }
}

/// The `herdr` subcommand that opens a tab, bringing it to the front when
/// `focus` is set so a shared view attaching afterwards is already showing
/// the pane it made.  `--cwd` is left off entirely when no directory is
/// chosen, since herdr's own default is a better answer than an empty path.
pub fn create_args(cwd: Option<&str>, focus: bool) -> (r: Vec<String>)
    ensures
        texts(r@) == create_words(crate::text::opt_slice(cwd), focus),
{
    let mut args: Vec<String> = Vec::new();
    args.push("tab".to_owned());
    args.push("create".to_owned());
    if focus {
        args.push("--focus".to_owned());
    } else {
        args.push("--no-focus".to_owned());
    }
    assert(texts(args@) =~= create_words(None, focus));
    if let Some(dir) = cwd {
        let ghost before = args@;
        args.push("--cwd".to_owned());
        args.push(dir.to_owned());
        assert(texts(args@) =~= texts(before) + seq!["--cwd"@, dir@]);
    }
    args
}

/// The pane a create answered with: its terminal and its position.
pub open spec fn created_ids(reply: Option<Tree>) -> Option<(Seq<char>, Seq<char>)> {
    match reply {
        Some(created) => match member(created, "result"@) {
            Some(result) => match member(result, "root_pane"@) {
                Some(root) => match (text_of(member(root, "terminal_id"@)), text_of(member(root, "pane_id"@))) {
                    (Some(terminal_id), Some(pane_id)) => Some((terminal_id, pane_id)),
                    _ => None,
                },
                None => None,
            },
            None => None,
        },
        None => None,
    }
}

/// The ids of a created pane or the reason there is none.
pub open spec fn created_view(r: Result<CreatedPane, String>) -> Result<(Seq<char>, Seq<char>), Seq<char>> {
    match r {
        Ok(pane) => Ok((pane.terminal_id@, pane.pane_id@)),
        Err(message) => Err(message@),
    }
}

/// What creating a pane came to.
pub open spec fn create_outcome(call: Result<Reply, CallError>) -> Result<(Seq<char>, Seq<char>), Seq<char>> {
    match call {
        Err(CallError::NoAnswer) => Err(NO_ANSWER@ + " while creating the pane"@),
        Err(CallError::Failed(e)) => Err("failed to create a herdr pane: "@ + e@),
        Ok(reply) => if !reply.ok {
            Err("herdr refused to create the pane: "@ + reply.stderr@)
        } else {
            match created_ids(document_of_bytes(reply.stdout@)) {
                Some(ids) => Ok(ids),
                None => Err("herdr answered with no pane"@),
            }
        },
    }
}

/// The created pane of an answer that has been read.
pub fn created_in(reply: &Option<Json>) -> (r: Option<CreatedPane>)
    ensures
        (match r {
            Some(pane) => Some((pane.terminal_id@, pane.pane_id@)),
            None => None,
        }) == created_ids(opt_tree(*reply)),
{
    let created = match reply {
        Some(created) => created,
        None => return None,
    };
    let result = match created.get("result") {
        Some(result) => result,
        None => return None,
    };
    let root = match result.get("root_pane") {
        Some(root) => root,
        None => return None,
    };
    match (root.text_at("terminal_id"), root.text_at("pane_id")) {
        (Some(terminal_id), Some(pane_id)) => Some(CreatedPane { terminal_id, pane_id }),
        _ => None,
    }
}

/// Read what opening a tab in the user's own herdr window came to.
pub fn create_pane(call: &Result<Reply, CallError>) -> (r: Result<CreatedPane, String>)
    ensures
        created_view(r) == create_outcome(*call),
{
    match call {
        Err(CallError::NoAnswer) => Err(concat2(NO_ANSWER, " while creating the pane")),
        Err(CallError::Failed(e)) => Err(concat2("failed to create a herdr pane: ", e)),
        Ok(reply) => {
            if !reply.ok {
                return Err(concat2("herdr refused to create the pane: ", &reply.stderr));
            }
            match created_in(&parse_bytes(&reply.stdout)) {
                Some(pane) => Ok(pane),
                None => Err("herdr answered with no pane".to_owned()),
            }
        },
    }
}

/// Why a listing that ran has no reply to read.
pub open spec fn listing_error(call: Result<Reply, CallError>) -> Option<PollErrorView> {
    match call {
        Err(_) => Some(PollErrorView::Absent("spawn_failed"@)),
        Ok(reply) => if reply.ok {
            None
        } else {
            match envelope_code(document(reply.stderr@)) {
                Some(code) => Some(PollErrorView::Server(code)),
                None => Some(PollErrorView::Absent("herdr_unavailable"@)),
            }
        },
    }
}

/// The text a listing printed.  Success is on stdout, errors are on stderr;
/// the exit status decides which to read.
pub fn list_panes(call: &Result<Reply, CallError>) -> (r: Result<String, PollError>)
    ensures
        match r {
            Ok(stdout) => call is Ok && listing_error(*call) is None && stdout@ == lossy_text(call->Ok_0.stdout@),
            Err(error) => listing_error(*call) == Some(error@),
        },
{
    match call {
        Err(_) => Err(PollError::Absent("spawn_failed")),
        Ok(reply) => {
            if !reply.ok {
                return match error_code(&reply.stderr) {
                    Some(code) => Err(PollError::Server(code)),
                    None => Err(PollError::Absent("herdr_unavailable")),
                };
            }
            Ok(from_utf8_lossy(&reply.stdout))
        },
    }
}

/// What a shared-view attach does next.
#[derive(Debug, PartialEq, Eq)]
pub enum GestureStep {
    /// Focus the pane, since every app client draws whatever herdr has
    /// focused.
    Focus(String),
    /// Ask herdr for the name of its running session.
    NameSession,
    /// Start the client on that session.
    Attach(String),
    Refuse(String),
}

/// The first step of a shared-view attach: focus the pane where one is to be
/// focused.  Without one herdr is left where it is.
pub fn gesture_start(focus: Option<&str>, cached_name: Option<&str>) -> (r: GestureStep)
    ensures
        match focus {
            Some(pane_id) => r matches GestureStep::Focus(id) && id@ == pane_id@,
            None => match cached_name {
                Some(name) => r matches GestureStep::Attach(session) && session@ == name@,
                None => r is NameSession,
            },
        },
{
    match focus {
        Some(pane_id) => GestureStep::Focus(pane_id.to_owned()),
        None => gesture_named(cached_name),
    }
}

fn gesture_named(cached_name: Option<&str>) -> (r: GestureStep)
    ensures
        match cached_name {
            Some(name) => r matches GestureStep::Attach(session) && session@ == name@,
            None => r is NameSession,
        },
{
    match cached_name {
        Some(name) => GestureStep::Attach(name.to_owned()),
        None => GestureStep::NameSession,
    }
}

/// The step after the pane was focused: a refusal ends the attach, and a name
/// already learned in the background saves asking for it.
pub fn gesture_focused(focused: Result<(), String>, cached_name: Option<&str>) -> (r: GestureStep)
    ensures
        match focused {
            Err(message) => r == GestureStep::Refuse(message),
            Ok(_) => match cached_name {
                Some(name) => r matches GestureStep::Attach(session) && session@ == name@,
                None => r is NameSession,
            },
        },
{
    match focused {
        Err(message) => GestureStep::Refuse(message),
        Ok(_) => gesture_named(cached_name),
    }
}

/// The step after herdr was asked for its session: a wait is better than a
/// refusal, but a herdr that said nothing is refused.
pub fn gesture_answered(named: Result<String, String>) -> (r: GestureStep)
    ensures
        match named {
            Ok(name) => r == GestureStep::Attach(name),
            Err(message) => r == GestureStep::Refuse(message),
        },
{
    match named {
        Ok(name) => GestureStep::Attach(name),
        Err(message) => GestureStep::Refuse(message),
    }
}

/// The command of a client attached to the session.
pub fn attach_command(side: &Side, program: &str, session: &str) -> (r: (String, Vec<String>))
    ensures
        (r.0@, texts(r.1@)) == run_on(side@, program@, session_words(session@)),
        side@ is Native ==> r.0@ == program@ && texts(r.1@) == seq!["session"@, "attach"@, session@],
        side@ matches SideView::Wsl(distro) ==> r.0@ == "wsl.exe"@ && texts(r.1@) == login_shell_argv(
            distro,
            shell_line(program@, seq!["session"@, "attach"@, session@]),
        ),
{
    let args: [&str; 3] = ["session", "attach", session];
    assert(slices(args@) =~= seq!["session"@, "attach"@, session@]);
    side.command(program, &args)
}

/// Refuses a job the helper reached after its caller stopped waiting.  `$1`
/// is that moment in Unix seconds, or `-` for a caller that waits forever.
/// The helper cannot be told to drop a job it has queued, so this check is
/// what keeps a late focus move or a duplicate pane from landing.
pub const HELPER_DEADLINE: &'static str =
    "d=$1; shift; [ \"$d\" = - ] || [ \"$(date +%s)\" -le \"$d\" ] || exit 124; ";

/// Prints what a command wrote to stdout, and on failure what it wrote to
/// stderr after it, with the command's own exit status.  The helper keeps
/// only a script's stdout.
pub const HELPER_COMMAND: &'static str =
    "{ e=$(\"$@\" 2>&1 1>&3); r=$?; } 3>&1; [ \"$r\" -eq 0 ] || printf '%s' \"$e\"; exit \"$r\"";

/// Writes the request in `$1` to the command after it and prints the first
/// line back.  herdr's Linux bridge answers after its stdin closes.  What it
/// printed on stderr, a connect failure for one, stands in only when no
/// answer came, so a warning cannot pass for the answer.
pub const HELPER_REQUEST: &'static str =
    "r=$1; shift; f=$(mktemp) || exit 1; o=$(printf '%s\\n' \"$r\" | \"$@\" 2>\"$f\" | head -n 1); if [ -n \"$o\" ]; then printf '%s\\n' \"$o\"; else head -c 1000 \"$f\"; fi; rm -f \"$f\"";

/// The script a distro's helper runs for a call with a request or without.
pub open spec fn script_for(has_request: bool) -> Seq<char> {
    HELPER_DEADLINE@ + (if has_request {
        HELPER_REQUEST@
    } else {
        HELPER_COMMAND@
    })
}

/// The script a distro's helper runs for a call.
pub fn helper_script(has_request: bool) -> (r: String)
    ensures
        r@ == script_for(has_request),
        r@ == HELPER_DEADLINE@ + (if has_request {
            HELPER_REQUEST@
        } else {
            HELPER_COMMAND@
        }),
{
    if has_request {
        concat2(HELPER_DEADLINE, HELPER_REQUEST)
    } else {
        concat2(HELPER_DEADLINE, HELPER_COMMAND)
    }
}

/// The words a distro's helper hands its script: the moment after which it is
/// refused, rounded up so that a job reached in time never is, then the
/// request, the program and its arguments.
pub open spec fn helper_words(
    deadline: Option<u64>,
    request: Option<Seq<char>>,
    program: Seq<char>,
    args: Seq<Seq<char>>,
) -> Seq<Seq<char>> {
    seq![
        match deadline {
            Some(at) => decimal(at as nat + 1),
            None => "-"@,
        },
    ] + (match request {
        Some(line) => seq![trim_right(line)],
        None => Seq::empty(),
    }) + seq![program] + args
}

/// The arguments of a helper job.  `deadline` is the moment the caller stops
/// waiting, in whole Unix seconds, and none for a caller that waits forever.
pub fn helper_args(deadline: Option<u64>, request: Option<&str>, program: &str, args: &[&str]) -> (r: Vec<String>)
    requires
        deadline matches Some(at) ==> at < u64::MAX,
    ensures
        texts(r@) == helper_words(deadline, crate::text::opt_slice(request), program@, slices(args@)),
{
    let first = match deadline {
        Some(at) => decimal_text(at + 1),
        None => "-".to_owned(),
    };
    let mut argv: Vec<String> = Vec::new();
    argv.push(first);
    assert(texts(argv@) =~= seq![first@]);
    if let Some(line) = request {
        let ghost before = argv@;
        argv.push(owned_trim_end(line));
        assert(texts(argv@) =~= texts(before) + seq![trim_right(line@)]);
    } else {
        assert(texts(argv@) =~= seq![first@] + Seq::<Seq<char>>::empty());
    }
    let ghost before = argv@;
    argv.push(program.to_owned());
    assert(texts(argv@) =~= texts(before) + seq![program@]);
    let ghost head = texts(argv@);
    let mut i: usize = 0;
    proof {
        assert(head + slices(args@).take(0) =~= head);
    }
    while i < args.len()
        invariant
            i <= args@.len(),
            texts(argv@) == head + slices(args@).take(i as int),
        decreases args@.len() - i,
    {
        let ghost before = argv@;
        argv.push(args[i].to_owned());
        assert(texts(argv@) =~= texts(before).push(args@[i as int]@));
        assert(slices(args@)[i as int] == args@[i as int]@);
        assert(slices(args@).take(i + 1) =~= slices(args@).take(i as int).push(args@[i as int]@));
        i += 1;
    }
    assert(slices(args@).take(args@.len() as int) =~= slices(args@));
    argv
}

/// What a helper job's exit and payload mean.  A request has answered when a
/// line came back; a command that failed carries its stderr in the payload.
pub open spec fn helped(has_request: bool, exit: i32, payload: Seq<u8>, reply: Reply) -> bool {
    if has_request || exit == 0 {
        &&& reply.ok == (!has_request || payload.len() > 0)
        &&& reply.stdout@ == payload
        &&& reply.stderr@ == Seq::<char>::empty()
    } else {
        &&& !reply.ok
        &&& reply.stdout@ == Seq::<u8>::empty()
        &&& reply.stderr@ == lossy_text(payload)
    }
}

/// The reply a helper job stands for.
pub fn helper_reply(has_request: bool, exit: i32, payload: Vec<u8>) -> (r: Reply)
    ensures
        helped(has_request, exit, payload@, r),
{
    if has_request {
        let ok = payload.len() > 0;
        Reply { ok, stdout: payload, stderr: String::new() }
    } else if exit == 0 {
        Reply { ok: true, stdout: payload, stderr: String::new() }
    } else {
        Reply { ok: false, stderr: from_utf8_lossy(&payload), stdout: Vec::new() }
    }
}

/// What a job handed to a distro's helper came to.
#[derive(Debug, PartialEq, Eq)]
pub enum HelperAnswer {
    /// Nothing came back inside the call's limit.
    Silent,
    /// The helper was never handed the job.
    NotWritten,
    /// The helper may have run the job, and went away before it answered.
    NoReply(String),
    Ran { exit: i32, payload: Vec<u8> },
}

/// What a call through a distro's helper came to.  `None` sends the caller to
/// a one-shot instead, which only a job the helper never saw allows: one it
/// may have run is not run twice.
pub fn helper_outcome(has_request: bool, answer: HelperAnswer) -> (r: Option<Result<Reply, CallError>>)
    ensures
        r is None <==> answer is NotWritten,
        answer is Silent ==> r == Some(Err::<Reply, CallError>(CallError::NoAnswer)),
        answer matches HelperAnswer::NoReply(e) ==> r == Some(Err::<Reply, CallError>(CallError::Failed(e))),
        answer matches HelperAnswer::Ran { exit, payload } ==> r matches Some(Ok(reply)) && helped(
            has_request,
            exit,
            payload@,
            reply,
        ),
{
    match answer {
        HelperAnswer::Silent => Some(Err(CallError::NoAnswer)),
        HelperAnswer::NotWritten => None,
        HelperAnswer::NoReply(e) => Some(Err(CallError::Failed(e))),
        HelperAnswer::Ran { exit, payload } => Some(Ok(helper_reply(has_request, exit, payload))),
    }
}

/// What became of waiting for a child's answer.
#[derive(Debug, PartialEq, Eq)]
pub enum ChildAnswer {
    Printed(Vec<u8>),
    /// Nothing came back inside the limit.
    Silent,
    /// Its output could not be read.
    Unread(String),
    /// It was started without its pipes.
    Pipeless,
}

/// Where a one-shot call stands.
#[derive(Debug, PartialEq, Eq)]
pub enum ChildStage {
    Spawning,
    Sending { pipes: bool },
    Reading,
    Awaiting,
    Killing(ChildAnswer),
    Reaping(ChildAnswer),
    Explaining(Vec<u8>),
    Over,
}

/// What has happened to the child of a one-shot call.
#[derive(Debug, PartialEq, Eq)]
pub enum ChildEvent {
    Spawned { pipes: bool },
    NotSpawned(String),
    /// The request was written, or could not be: the answer will tell.
    Sent,
    ReaderUp,
    ReaderFailed(String),
    Printed(Vec<u8>),
    /// The limit ran out.
    Silent,
    Killed,
    Exited { well: bool },
    /// What the child printed on stderr, where it could be had in time.
    Said(Option<String>),
}

/// What a one-shot call does next.
#[derive(Debug, PartialEq, Eq)]
pub enum ChildStep {
    /// Write the request to the child's stdin and leave it open, since herdr's
    /// Windows bridge stops relaying at its end.
    Send,
    /// Start reading what the child prints: its first line, or all of it.
    Read { one_line: bool },
    /// Wait for what was read, that many milliseconds where there is a limit.
    Await(Option<u64>),
    Kill,
    Reap,
    /// Wait that many milliseconds for what the child printed on stderr.  A
    /// process it started can hold stderr open past the kill.
    Explain(u64),
    Done(Result<Reply, CallError>),
}

/// What a one-shot call does next, with the characters of its texts.
pub enum ChildStepView {
    Send,
    Read { one_line: bool },
    Await(Option<u64>),
    Kill,
    Reap,
    Explain(u64),
    Done(Result<ReplyView, CallErrorView>),
}

/// What a call printed, viewed.
pub struct ReplyView {
    pub ok: bool,
    pub stdout: Seq<u8>,
    pub stderr: Seq<char>,
}

/// Why a call gave no reply, viewed.
pub enum CallErrorView {
    NoAnswer,
    Failed(Seq<char>),
}

impl View for Reply {
    type V = ReplyView;

    open spec fn view(&self) -> ReplyView {
        ReplyView { ok: self.ok, stdout: self.stdout@, stderr: self.stderr@ }
    }
}

impl View for CallError {
    type V = CallErrorView;

    open spec fn view(&self) -> CallErrorView {
        match self {
            CallError::NoAnswer => CallErrorView::NoAnswer,
            CallError::Failed(e) => CallErrorView::Failed(e@),
        }
    }
}

impl View for ChildStep {
    type V = ChildStepView;

    open spec fn view(&self) -> ChildStepView {
        match self {
            ChildStep::Send => ChildStepView::Send,
            ChildStep::Read { one_line } => ChildStepView::Read { one_line: *one_line },
            ChildStep::Await(limit) => ChildStepView::Await(*limit),
            ChildStep::Kill => ChildStepView::Kill,
            ChildStep::Reap => ChildStepView::Reap,
            ChildStep::Explain(grace) => ChildStepView::Explain(*grace),
            ChildStep::Done(Ok(reply)) => ChildStepView::Done(Ok(reply@)),
            ChildStep::Done(Err(error)) => ChildStepView::Done(Err(error@)),
        }
    }
}

/// How a child started without its pipes is reported.
pub const PIPELESS: &'static str = "herdr started without its pipes";

/// Once the request is on its way: read the child, or be rid of it.
pub open spec fn child_sent(one_line: bool, pipes: bool) -> (ChildStage, ChildStepView) {
    if pipes {
        (ChildStage::Reading, ChildStepView::Read { one_line })
    } else {
        (ChildStage::Killing(ChildAnswer::Pipeless), ChildStepView::Kill)
    }
}

/// Once it is known what the child answered: one that was asked for a line, or
/// that gave none, is killed rather than left to exit.
pub open spec fn child_answered(one_line: bool, answer: ChildAnswer) -> (ChildStage, ChildStepView) {
    if one_line || !(answer is Printed) {
        (ChildStage::Killing(answer), ChildStepView::Kill)
    } else {
        (ChildStage::Reaping(answer), ChildStepView::Reap)
    }
}

/// Once the child is gone.  One asked for a line has answered when a line
/// came, any other when it exited well, and only a call that failed is
/// explained by what was printed on stderr.
pub open spec fn child_exited(one_line: bool, answer: ChildAnswer, well: bool) -> (ChildStage, ChildStepView) {
    match answer {
        ChildAnswer::Silent => (ChildStage::Over, ChildStepView::Done(Err(CallErrorView::NoAnswer))),
        ChildAnswer::Unread(e) => (ChildStage::Over, ChildStepView::Done(Err(CallErrorView::Failed(e@)))),
        ChildAnswer::Pipeless => (
            ChildStage::Over,
            ChildStepView::Done(Err(CallErrorView::Failed(PIPELESS@))),
        ),
        ChildAnswer::Printed(out) => if if one_line {
            out@.len() > 0
        } else {
            well
        } {
            (
                ChildStage::Over,
                ChildStepView::Done(
                    Ok(ReplyView { ok: true, stdout: out@, stderr: Seq::empty() }),
                ),
            )
        } else {
            (ChildStage::Explaining(out), ChildStepView::Explain(STDERR_GRACE))
        },
    }
}

/// What a one-shot call goes on to on an event, where the event belongs to
/// the stage.
pub open spec fn child_next(
    one_line: bool,
    limit: Option<u64>,
    stage: ChildStage,
    event: ChildEvent,
) -> Option<(ChildStage, ChildStepView)> {
    match (stage, event) {
        (ChildStage::Spawning, ChildEvent::Spawned { pipes }) => Some(
            if one_line {
                (ChildStage::Sending { pipes }, ChildStepView::Send)
            } else {
                child_sent(one_line, pipes)
            },
        ),
        (ChildStage::Spawning, ChildEvent::NotSpawned(e)) => Some(
            (ChildStage::Over, ChildStepView::Done(Err(CallErrorView::Failed(e@)))),
        ),
        (ChildStage::Sending { pipes }, ChildEvent::Sent) => Some(child_sent(one_line, pipes)),
        (ChildStage::Reading, ChildEvent::ReaderUp) => Some(
            (ChildStage::Awaiting, ChildStepView::Await(limit)),
        ),
        (ChildStage::Reading, ChildEvent::ReaderFailed(e)) => Some(
            child_answered(one_line, ChildAnswer::Unread(e)),
        ),
        (ChildStage::Awaiting, ChildEvent::Printed(out)) => Some(
            child_answered(one_line, ChildAnswer::Printed(out)),
        ),
        (ChildStage::Awaiting, ChildEvent::Silent) => Some(child_answered(one_line, ChildAnswer::Silent)),
        (ChildStage::Killing(answer), ChildEvent::Killed) => Some(
            (ChildStage::Reaping(answer), ChildStepView::Reap),
        ),
        (ChildStage::Reaping(answer), ChildEvent::Exited { well }) => Some(
            child_exited(one_line, answer, well),
        ),
        (ChildStage::Explaining(out), ChildEvent::Said(text)) => Some(
            (
                ChildStage::Over,
                ChildStepView::Done(
                    Ok(
                        ReplyView {
                            ok: false,
                            stdout: out@,
                            stderr: match text {
                                Some(text) => text@,
                                None => Seq::empty(),
                            },
                        },
                    ),
                ),
            ),
        ),
        _ => None,
    }
}

/// A one-shot `herdr` process, run to its end, or, where it carries a request,
/// until it answers one line.  One that runs out its limit is killed.  On a
/// WSL side that is `wsl.exe`: a herdr already started inside the distro runs
/// on.
#[derive(Debug, PartialEq, Eq)]
pub struct ChildCall {
    /// The call carries a request, which one line answers.
    pub one_line: bool,
    pub limit: Option<u64>,
    pub stage: ChildStage,
}

impl ChildCall {
    /// A call whose child is about to be started, with a pipe for its stdin
    /// where it carries a request.
    pub fn new(one_line: bool, limit: Option<u64>) -> (r: Self)
        ensures
            r == (ChildCall { one_line, limit, stage: ChildStage::Spawning }),
    {
        ChildCall { one_line, limit, stage: ChildStage::Spawning }
    }

    fn sent(&self, pipes: bool) -> (r: (ChildStage, ChildStep))
        ensures
            (r.0, r.1@) == child_sent(self.one_line, pipes),
    {
        if pipes {
            (ChildStage::Reading, ChildStep::Read { one_line: self.one_line })
        } else {
            (ChildStage::Killing(ChildAnswer::Pipeless), ChildStep::Kill)
        }
    }

    fn answered(&self, answer: ChildAnswer) -> (r: (ChildStage, ChildStep))
        ensures
            (r.0, r.1@) == child_answered(self.one_line, answer),
    {
        if self.one_line || !matches!(answer, ChildAnswer::Printed(_)) {
            (ChildStage::Killing(answer), ChildStep::Kill)
        } else {
            (ChildStage::Reaping(answer), ChildStep::Reap)
        }
    }

    fn exited(&self, answer: ChildAnswer, well: bool) -> (r: (ChildStage, ChildStep))
        ensures
            (r.0, r.1@) == child_exited(self.one_line, answer, well),
    {
        match answer {
            ChildAnswer::Silent => (ChildStage::Over, ChildStep::Done(Err(CallError::NoAnswer))),
            ChildAnswer::Unread(e) => (ChildStage::Over, ChildStep::Done(Err(CallError::Failed(e)))),
            ChildAnswer::Pipeless => (
                ChildStage::Over,
                ChildStep::Done(Err(CallError::Failed(PIPELESS.to_owned()))),
            ),
            ChildAnswer::Printed(stdout) => {
                let ok = if self.one_line {
                    stdout.len() > 0
                } else {
                    well
                };
                if ok {
                    let reply = Reply { ok, stdout, stderr: String::new() };
                    (ChildStage::Over, ChildStep::Done(Ok(reply)))
                } else {
                    (ChildStage::Explaining(stdout), ChildStep::Explain(STDERR_GRACE))
                }
            },
        }
    }

    /// Takes an event.  One that does not belong to the stage changes nothing.
    pub fn next(&mut self, event: ChildEvent) -> (r: Option<ChildStep>)
        ensures
            final(self).one_line == old(self).one_line,
            final(self).limit == old(self).limit,
            match child_next(old(self).one_line, old(self).limit, old(self).stage, event) {
                Some((stage, step)) => {
                    &&& final(self).stage == stage
                    &&& r matches Some(s)
                    &&& s@ == step
                },
                None => final(self).stage == old(self).stage && r is None,
            },
    {
        let mut stage = ChildStage::Over;
        std::mem::swap(&mut stage, &mut self.stage);
        let (after, step) = match (stage, event) {
            (ChildStage::Spawning, ChildEvent::Spawned { pipes }) => if self.one_line {
                (ChildStage::Sending { pipes }, ChildStep::Send)
            } else {
                self.sent(pipes)
            },
            (ChildStage::Spawning, ChildEvent::NotSpawned(e)) => (
                ChildStage::Over,
                ChildStep::Done(Err(CallError::Failed(e))),
            ),
            (ChildStage::Sending { pipes }, ChildEvent::Sent) => self.sent(pipes),
            (ChildStage::Reading, ChildEvent::ReaderUp) => (
                ChildStage::Awaiting,
                ChildStep::Await(self.limit),
            ),
            (ChildStage::Reading, ChildEvent::ReaderFailed(e)) => self.answered(ChildAnswer::Unread(e)),
            (ChildStage::Awaiting, ChildEvent::Printed(out)) => self.answered(ChildAnswer::Printed(out)),
            (ChildStage::Awaiting, ChildEvent::Silent) => self.answered(ChildAnswer::Silent),
            (ChildStage::Killing(answer), ChildEvent::Killed) => (
                ChildStage::Reaping(answer),
                ChildStep::Reap,
            ),
            (ChildStage::Reaping(answer), ChildEvent::Exited { well }) => self.exited(answer, well),
            (ChildStage::Explaining(stdout), ChildEvent::Said(text)) => {
                let stderr = match text {
                    Some(text) => text,
                    None => String::new(),
                };
                (ChildStage::Over, ChildStep::Done(Ok(Reply { ok: false, stdout, stderr })))
            },
            (stage, _) => {
                self.stage = stage;
                return None;
            },
        };
        self.stage = after;
        Some(step)
    }
}

/// The stage a call reaches over the events, and every step it took there.
pub open spec fn child_run(
    one_line: bool,
    limit: Option<u64>,
    events: Seq<ChildEvent>,
) -> (ChildStage, Seq<ChildStepView>)
    decreases events.len(),
{
    if events.len() == 0 {
        (ChildStage::Spawning, Seq::empty())
    } else {
        let (stage, steps) = child_run(one_line, limit, events.drop_last());
        match child_next(one_line, limit, stage, events.last()) {
            Some((after, step)) => (after, steps.push(step)),
            None => (stage, steps),
        }
    }
}

/// A call that is over has reaped its child, unless none was ever started,
/// and one that carried a request killed it first.
pub proof fn no_child_is_left_behind(one_line: bool, limit: Option<u64>, events: Seq<ChildEvent>)
    ensures
        ({
            let (stage, steps) = child_run(one_line, limit, events);
            stage is Over ==> {
                ||| steps.len() == 1
                ||| {
                    &&& steps.contains(ChildStepView::Reap)
                    &&& one_line ==> steps.contains(ChildStepView::Kill)
                }
            }
        }),
{
    a_stage_accounts_for_the_child(one_line, limit, events);
}

proof fn a_stage_accounts_for_the_child(one_line: bool, limit: Option<u64>, events: Seq<ChildEvent>)
    ensures
        ({
            let (stage, steps) = child_run(one_line, limit, events);
            match stage {
                ChildStage::Spawning => steps.len() == 0,
                ChildStage::Killing(_) => steps.contains(ChildStepView::Kill),
                ChildStage::Reaping(answer) => {
                    &&& steps.contains(ChildStepView::Reap)
                    &&& one_line || !(answer is Printed) ==> steps.contains(ChildStepView::Kill)
                },
                ChildStage::Explaining(_) => {
                    &&& steps.contains(ChildStepView::Reap)
                    &&& one_line ==> steps.contains(ChildStepView::Kill)
                },
                ChildStage::Over => {
                    ||| steps.len() == 1
                    ||| {
                        &&& steps.contains(ChildStepView::Reap)
                        &&& one_line ==> steps.contains(ChildStepView::Kill)
                    }
                },
                _ => true,
            }
        }),
    decreases events.len(),
{
    if events.len() > 0 {
        a_stage_accounts_for_the_child(one_line, limit, events.drop_last());
        let (stage, steps) = child_run(one_line, limit, events.drop_last());
        match child_next(one_line, limit, stage, events.last()) {
            Some((after, step)) => {
                let all = steps.push(step);
                assert(all[steps.len() as int] == step);
                assert forall|earlier: ChildStepView| steps.contains(earlier) implies all.contains(earlier) by {
                    let k = choose|k: int| 0 <= k < steps.len() && steps[k] == earlier;
                    assert(all[k] == earlier);
                }
            },
            None => {},
        }
    }
}

} // verus!

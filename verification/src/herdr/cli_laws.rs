//! What is asked of herdr's command line, and what its answers come to.

use vstd::prelude::*;

#[allow(unused_imports)]
use crate::herdr::cli::{
    answer_of, bridge_words, child_next, child_run, create_outcome, create_words, created_ids, focus_outcome,
    focus_tree, helped, helper_words, level_of, listing_error, outcome_words, run_on, script_for, session_outcome,
    session_words, transport_name, CallError, CallErrorView, CallLevel, ChildAnswer, ChildEvent, ChildStage,
    ChildStepView, Reply, ReplyView, Transport,
};
#[allow(unused_imports)]
use crate::herdr::model::PollErrorView;
#[allow(unused_imports)]
use crate::herdr::wire::{envelope_code, running_session};
#[allow(unused_imports)]
use crate::json::{document, document_of_bytes, lookup, member, Tree};
#[allow(unused_imports)]
use crate::side::{shell_line, SideView};
#[allow(unused_imports)]
use crate::text::{decimal, lossy_text, trim_right, trimmed};

verus! {

proof fn request_names_differ()
    ensures
        "id"@ != "method"@,
        "id"@ != "params"@,
        "method"@ != "params"@,
        "result"@ != "error"@,
        "terminal_id"@ != "pane_id"@,
{
    reveal_strlit("id");
    reveal_strlit("method");
    reveal_strlit("params");
    reveal_strlit("result");
    reveal_strlit("error");
    reveal_strlit("terminal_id");
    reveal_strlit("pane_id");
    assert("id"@.len() != "method"@.len());
    assert("id"@.len() != "params"@.len());
    assert("method"@[0] != "params"@[0]);
    assert("result"@.len() != "error"@.len());
    assert("terminal_id"@.len() != "pane_id"@.len());
}

/// A pane is focused by `pane.focus`, with the pane named under `pane_id`.
pub proof fn a_focus_request_names_its_pane(pane_id: Seq<char>)
    ensures
        ({
            let request = focus_tree(pane_id);
            &&& member(request, "id"@) == Some(Tree::Text("alacritree:focus"@))
            &&& member(request, "method"@) == Some(Tree::Text("pane.focus"@))
            &&& member(request, "params"@) matches Some(params) && member(params, "pane_id"@) == Some(
                Tree::Text(pane_id),
            )
        }),
{
    request_names_differ();
    reveal_with_fuel(lookup, 4);
}

/// A focus is granted by a result without an error. An error refuses it in its
/// own words, and what is neither in the words of the line itself.
pub proof fn a_focus_is_granted_by_a_result(members: Seq<(Seq<char>, Tree)>, line: Seq<char>)
    ensures
        ({
            let answer = answer_of(Some(Tree::Object(members)), line);
            let error = lookup(members, "error"@);
            let result = lookup(members, "result"@);
            let refused = error is Some && error != Some(Tree::Null);
            &&& !refused && result is Some && result != Some(Tree::Null) ==> answer is Ok
            &&& !refused && (result is None || result == Some(Tree::Null)) ==> answer == Err::<(), Seq<char>>(
                trimmed(line),
            )
            &&& error matches Some(Tree::Object(inner)) ==> match lookup(inner, "message"@) {
                Some(Tree::Text(words)) => answer == Err::<(), Seq<char>>(words),
                _ => answer == Err::<(), Seq<char>>(trimmed(line)),
            }
        }),
        answer_of(None, line) == Err::<(), Seq<char>>(trimmed(line)),
{
    request_names_differ();
}

/// An answer may also be a row of its result and its error.
pub proof fn an_answer_may_be_a_row(result: Tree, error: Seq<(Seq<char>, Tree)>, words: Seq<char>, line: Seq<char>, items: Seq<Tree>)
    ensures
        !(result is Null) ==> answer_of(Some(Tree::Array(seq![result, Tree::Null])), line) is Ok,
        answer_of(Some(Tree::Array(seq![Tree::Null, Tree::Null])), line) == Err::<(), Seq<char>>(trimmed(line)),
        lookup(error, "message"@) == Some(Tree::Text(words)) ==> answer_of(
            Some(Tree::Array(seq![result, Tree::Object(error)])),
            line,
        ) == Err::<(), Seq<char>>(words),
        items.len() != 2 ==> answer_of(Some(Tree::Array(items)), line) == Err::<(), Seq<char>>(trimmed(line)),
{
}

/// What a focus came to: granted, refused by herdr, failed in its own words, or
/// not answered.
pub proof fn what_a_focus_came_to(call: Result<Reply, CallError>)
    ensures
        call == Err::<Reply, CallError>(CallError::NoAnswer) ==> focus_outcome(call) == Err::<(), Seq<char>>(
            "herdr did not answer"@ + " while focusing the pane"@,
        ),
        call matches Err(CallError::Failed(e)) ==> focus_outcome(call) == Err::<(), Seq<char>>(
            "failed to focus herdr pane: "@ + e@,
        ),
        call matches Ok(reply) ==> {
            let line = lossy_text(reply.stdout@);
            &&& !reply.ok ==> focus_outcome(call) == Err::<(), Seq<char>>(
                "failed to focus herdr pane: "@ + trimmed(reply.stderr@),
            )
            &&& reply.ok && answer_of(document(line), line) is Ok ==> focus_outcome(call) is Ok
            &&& reply.ok && answer_of(document(line), line) is Err ==> focus_outcome(call) == Err::<(), Seq<char>>(
                "herdr refused to focus the pane: "@ + answer_of(document(line), line)->Err_0,
            )
        },
{
}

/// The session is the running one that herdr tells, and `default` wherever it
/// tells none; only a herdr that does not answer is a failure.
pub proof fn what_the_session_is(call: Result<Reply, CallError>)
    ensures
        session_outcome(call) is Err <==> call == Err::<Reply, CallError>(CallError::NoAnswer),
        session_outcome(call) is Err ==> session_outcome(call)->Err_0 == "herdr did not answer"@
            + " while listing its sessions"@,
        call matches Ok(reply) ==> reply.ok ==> (running_session(document_of_bytes(reply.stdout@)) matches Some(name)
            ==> session_outcome(call) == Ok::<Seq<char>, Seq<char>>(name)),
        call matches Ok(reply) ==> !reply.ok || running_session(document_of_bytes(reply.stdout@)) is None
            ==> session_outcome(call) == Ok::<Seq<char>, Seq<char>>("default"@),
        call matches Err(CallError::Failed(_)) ==> session_outcome(call) == Ok::<Seq<char>, Seq<char>>("default"@),
{
}

/// A pane is created as a tab, focused or not as asked, in the directory given.
pub proof fn what_creates_a_pane(dir: Seq<char>)
    ensures
        create_words(None, true) == seq!["tab"@, "create"@, "--focus"@],
        create_words(None, false) == seq!["tab"@, "create"@, "--no-focus"@],
        create_words(Some(dir), true) == seq!["tab"@, "create"@, "--focus"@, "--cwd"@, dir],
        create_words(Some(dir), false) == seq!["tab"@, "create"@, "--no-focus"@, "--cwd"@, dir],
{
    assert(create_words(Some(dir), true) =~= seq!["tab"@, "create"@, "--focus"@, "--cwd"@, dir]);
    assert(create_words(Some(dir), false) =~= seq!["tab"@, "create"@, "--no-focus"@, "--cwd"@, dir]);
}

/// A created pane is known by the terminal and the pane of the tab's root pane,
/// and is none without either.
pub proof fn a_created_pane_is_known_by_its_root(reply: Tree, result: Tree, root: Tree, terminal_id: Seq<char>, pane_id: Seq<char>)
    requires
        member(reply, "result"@) == Some(result),
        member(result, "root_pane"@) == Some(root),
    ensures
        created_ids(Some(reply)) == Some((terminal_id, pane_id)) <==> member(root, "terminal_id"@) == Some(
            Tree::Text(terminal_id),
        ) && member(root, "pane_id"@) == Some(Tree::Text(pane_id)),
        created_ids(None) is None,
{
}

/// What a creation came to.
pub proof fn what_a_creation_came_to(call: Result<Reply, CallError>)
    ensures
        call == Err::<Reply, CallError>(CallError::NoAnswer) ==> create_outcome(call) == Err::<
            (Seq<char>, Seq<char>),
            Seq<char>,
        >("herdr did not answer"@ + " while creating the pane"@),
        call matches Err(CallError::Failed(e)) ==> create_outcome(call) == Err::<(Seq<char>, Seq<char>), Seq<char>>(
            "failed to create a herdr pane: "@ + e@,
        ),
        call matches Ok(reply) ==> {
            &&& !reply.ok ==> create_outcome(call) == Err::<(Seq<char>, Seq<char>), Seq<char>>(
                "herdr refused to create the pane: "@ + reply.stderr@,
            )
            &&& reply.ok ==> match created_ids(document_of_bytes(reply.stdout@)) {
                Some(ids) => create_outcome(call) == Ok::<(Seq<char>, Seq<char>), Seq<char>>(ids),
                None => create_outcome(call) == Err::<(Seq<char>, Seq<char>), Seq<char>>(
                    "herdr answered with no pane"@,
                ),
            }
        },
{
}

/// A listing fails where the call does, as no herdr; and where it says so, as
/// the server's error if its code can be read and as no herdr otherwise.
pub proof fn why_a_listing_failed(call: Result<Reply, CallError>)
    ensures
        call is Err ==> listing_error(call) == Some(PollErrorView::Absent("spawn_failed"@)),
        call matches Ok(reply) ==> {
            &&& reply.ok ==> listing_error(call) is None
            &&& !reply.ok ==> match envelope_code(document(reply.stderr@)) {
                Some(code) => listing_error(call) == Some(PollErrorView::Server(code)),
                None => listing_error(call) == Some(PollErrorView::Absent("herdr_unavailable"@)),
            }
        },
{
}

/// A helper is told one more than its deadline, or a dash where there is
/// none, then the request without its line end where there is one, then the
/// program and its arguments.
pub proof fn what_a_helper_is_told(at: u64, line: Seq<char>, program: Seq<char>, args: Seq<Seq<char>>)
    ensures
        helper_words(Some(at), Some(line), program, args) == seq![decimal(at as nat + 1), trim_right(line), program]
            + args,
        helper_words(Some(at), None, program, args) == seq![decimal(at as nat + 1), program] + args,
        helper_words(None, Some(line), program, args) == seq!["-"@, trim_right(line), program] + args,
        helper_words(None, None, program, args) == seq!["-"@, program] + args,
{
    assert(helper_words(Some(at), Some(line), program, args) =~= seq![
        decimal(at as nat + 1),
        trim_right(line),
        program,
    ] + args);
    assert(helper_words(Some(at), None, program, args) =~= seq![decimal(at as nat + 1), program] + args);
    assert(helper_words(None, Some(line), program, args) =~= seq!["-"@, trim_right(line), program] + args);
    assert(helper_words(None, None, program, args) =~= seq!["-"@, program] + args);
}

/// A helper's payload is the call's output, or what it printed on its error
/// stream where the command failed; a request has answered where anything came
/// back.
pub proof fn what_a_helper_gives_back(exit: i32, payload: Seq<u8>, reply: Reply)
    ensures
        helped(true, exit, payload, reply) ==> reply.stdout@ == payload && (reply.ok <==> payload.len() > 0)
            && reply.stderr@.len() == 0,
        exit == 0 && helped(false, exit, payload, reply) ==> reply.stdout@ == payload && reply.ok && reply.stderr@.len()
            == 0,
        exit != 0 && helped(false, exit, payload, reply) ==> reply.stdout@.len() == 0 && !reply.ok && reply.stderr@
            == lossy_text(payload),
{
}

/// The words of a call's line in the log.
pub proof fn how_a_call_is_told(call: Result<Reply, CallError>)
    ensures
        call matches Ok(reply) ==> reply.ok ==> outcome_words(call) == "answered"@,
        call matches Ok(reply) ==> !reply.ok ==> outcome_words(call) == "failed"@,
        call == Err::<Reply, CallError>(CallError::NoAnswer) ==> outcome_words(call) == "got no answer"@,
        call matches Err(CallError::Failed(_)) ==> outcome_words(call) == "could not run"@,
        transport_name(Transport::Helper) == "Helper"@,
        transport_name(Transport::Spawn) == "Spawn"@,
{
}

/// A call that took a second or more, or gave no reply, is worth telling of.
pub proof fn how_loud_a_call_is(call: Result<Reply, CallError>, elapsed: u64)
    ensures
        elapsed >= 1000 || call is Err ==> level_of(call, elapsed) == CallLevel::Info,
        elapsed < 1000 && call is Ok ==> level_of(call, elapsed) == CallLevel::Debug,
{
}

/// A call that is read to its end: spawned, read, awaited and reaped, its
/// output is the reply, and it went well where the child exited well.
pub proof fn a_whole_reply_is_read_and_reaped(limit: Option<u64>, out: Vec<u8>, well: bool)
    ensures
        ({
            let (stage, steps) = child_run(
                false,
                limit,
                seq![
                    ChildEvent::Spawned { pipes: true },
                    ChildEvent::ReaderUp,
                    ChildEvent::Printed(out),
                    ChildEvent::Exited { well },
                ],
            );
            &&& steps[0] == ChildStepView::Read { one_line: false }
            &&& steps[1] == ChildStepView::Await(limit)
            &&& steps[2] == ChildStepView::Reap
            &&& well ==> steps[3] == ChildStepView::Done(
                Ok(ReplyView { ok: true, stdout: out@, stderr: Seq::empty() }),
            )
            &&& !well ==> steps[3] == ChildStepView::Explain(500)
        }),
{
    let events = seq![
        ChildEvent::Spawned { pipes: true },
        ChildEvent::ReaderUp,
        ChildEvent::Printed(out),
        ChildEvent::Exited { well },
    ];
    let three = events.drop_last();
    let two = three.drop_last();
    let one = two.drop_last();
    assert(one.drop_last() =~= Seq::<ChildEvent>::empty());
    assert(child_run(false, limit, one.drop_last()) == (ChildStage::Spawning, Seq::<ChildStepView>::empty()));
    assert(one.last() == (ChildEvent::Spawned { pipes: true }));
    assert(two.last() == ChildEvent::ReaderUp);
    assert(three.last() == ChildEvent::Printed(out));
    assert(events.last() == (ChildEvent::Exited { well }));
    assert(child_run(false, limit, one).0 == ChildStage::Reading);
    assert(child_run(false, limit, two).0 == ChildStage::Awaiting);
    assert(child_run(false, limit, three).0 == ChildStage::Reaping(ChildAnswer::Printed(out)));
}

/// A request sent down the bridge is answered by one line, after which the
/// child is killed, and a line is the reply whatever the child's exit.
pub proof fn one_line_answers_a_request(limit: Option<u64>, out: Vec<u8>, well: bool)
    ensures
        child_next(true, limit, ChildStage::Spawning, ChildEvent::Spawned { pipes: true }) == Some(
            (ChildStage::Sending { pipes: true }, ChildStepView::Send),
        ),
        child_next(true, limit, ChildStage::Sending { pipes: true }, ChildEvent::Sent) == Some(
            (ChildStage::Reading, ChildStepView::Read { one_line: true }),
        ),
        child_next(true, limit, ChildStage::Awaiting, ChildEvent::Printed(out)) == Some(
            (ChildStage::Killing(ChildAnswer::Printed(out)), ChildStepView::Kill),
        ),
        out@.len() > 0 ==> child_next(
            true,
            limit,
            ChildStage::Reaping(ChildAnswer::Printed(out)),
            ChildEvent::Exited { well },
        ) == Some(
            (ChildStage::Over, ChildStepView::Done(Ok(ReplyView { ok: true, stdout: out@, stderr: Seq::empty() }))),
        ),
        out@.len() == 0 ==> child_next(
            true,
            limit,
            ChildStage::Reaping(ChildAnswer::Printed(out)),
            ChildEvent::Exited { well },
        ) == Some((ChildStage::Explaining(out), ChildStepView::Explain(500))),
{
}

/// A child that says nothing in time is killed and reaped, and gave no answer;
/// one that could not be read or has no pipes failed, in those words.
pub proof fn a_silent_child_gave_no_answer(one_line: bool, limit: Option<u64>, e: String, well: bool)
    ensures
        child_next(one_line, limit, ChildStage::Awaiting, ChildEvent::Silent) == Some(
            (ChildStage::Killing(ChildAnswer::Silent), ChildStepView::Kill),
        ),
        child_next(one_line, limit, ChildStage::Killing(ChildAnswer::Silent), ChildEvent::Killed) == Some(
            (ChildStage::Reaping(ChildAnswer::Silent), ChildStepView::Reap),
        ),
        child_next(one_line, limit, ChildStage::Reaping(ChildAnswer::Silent), ChildEvent::Exited { well }) == Some(
            (ChildStage::Over, ChildStepView::Done(Err(CallErrorView::NoAnswer))),
        ),
        child_next(one_line, limit, ChildStage::Reaping(ChildAnswer::Unread(e)), ChildEvent::Exited { well }) == Some(
            (ChildStage::Over, ChildStepView::Done(Err(CallErrorView::Failed(e@)))),
        ),
        child_next(one_line, limit, ChildStage::Reaping(ChildAnswer::Pipeless), ChildEvent::Exited { well }) == Some(
            (
                ChildStage::Over,
                ChildStepView::Done(Err(CallErrorView::Failed("herdr started without its pipes"@))),
            ),
        ),
        child_next(one_line, limit, ChildStage::Spawning, ChildEvent::NotSpawned(e)) == Some(
            (ChildStage::Over, ChildStepView::Done(Err(CallErrorView::Failed(e@)))),
        ),
{
}

/// A call that failed is explained by what the child printed on its error
/// stream, if it printed anything there.
pub proof fn a_failed_call_is_explained(one_line: bool, limit: Option<u64>, out: Vec<u8>, text: Option<String>)
    ensures
        child_next(one_line, limit, ChildStage::Explaining(out), ChildEvent::Said(text)) matches Some(
            (ChildStage::Over, ChildStepView::Done(Ok(reply))),
        ) && !reply.ok && reply.stdout == out@ && (text is Some ==> reply.stderr == text->0@) && (text is None
            ==> reply.stderr.len() == 0),
{
}

/// A relay is `remote-api-bridge`, a client `session attach` and the session;
/// each runs as it is natively, and through the distro's login shell in WSL.
pub proof fn what_runs_on_a_side(distro: Seq<char>, program: Seq<char>, session: Seq<char>, words: Seq<Seq<char>>)
    ensures
        bridge_words() == seq!["remote-api-bridge"@],
        session_words(session) == seq!["session"@, "attach"@, session],
        run_on(SideView::Native, program, words) == (program, words),
        run_on(SideView::Wsl(distro), program, words) == (
            "wsl.exe"@,
            seq!["-d"@, distro, "--exec"@, "sh"@, "-lc"@, shell_line(program, words)],
        ),
{
}

/// A helper's script first gives up where its moment has passed.  For a
/// request it then feeds the line to the command and prints the first line
/// that comes back, or what went to the error stream where none did; without
/// one it prints the command's output, and on a failure its error stream too,
/// with its exit status.
pub proof fn what_a_helper_runs()
    ensures
        script_for(true) == "d=$1; shift; [ \"$d\" = - ] || [ \"$(date +%s)\" -le \"$d\" ] || exit 124; "@
            + "r=$1; shift; f=$(mktemp) || exit 1; o=$(printf '%s\\n' \"$r\" | \"$@\" 2>\"$f\" | head -n 1); if [ -n \"$o\" ]; then printf '%s\\n' \"$o\"; else head -c 1000 \"$f\"; fi; rm -f \"$f\""@,
        script_for(false) == "d=$1; shift; [ \"$d\" = - ] || [ \"$(date +%s)\" -le \"$d\" ] || exit 124; "@
            + "{ e=$(\"$@\" 2>&1 1>&3); r=$?; } 3>&1; [ \"$r\" -eq 0 ] || printf '%s' \"$e\"; exit \"$r\""@,
{
}

} // verus!

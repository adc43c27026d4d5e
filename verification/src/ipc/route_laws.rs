//! Where a request is answered, and what its neighbours share with it.

use vstd::prelude::*;

#[allow(unused_imports)]
use crate::ipc::request::Asked;
#[allow(unused_imports)]
use crate::ipc::route::{lane_of, AppRequest, ConnectionRequest, DeferredRequest, FrameRequest, Lane, Route};
#[allow(unused_imports)]
use crate::ipc::server::{
    app_answer, create_error_text, created_answer, left_until, listing, lists, shared_env, AppReply, CreateError,
};
#[allow(unused_imports)]
use crate::json::{lookup, member, Tree};
#[allow(unused_imports)]
use crate::text::decimal;

verus! {

/// What takes git's time is answered on its own connection; what waits for
/// something is answered later; and everything else within the frame.
pub proof fn where_a_request_is_answered(request: Asked)
    ensures
        request is GitStatus || request is CreateWorktree ==> lane_of(request) == Lane::Connection,
        request is RefreshProject || request is AddProject || request is CreateSession || request is AttachMultiplexerPane
            || request is CreateMultiplexerPane ==> lane_of(request) == Lane::Deferred,
        request is SelectWorkspace || request is CloseSession || request is SendText || request is MoveSession || request is ReadScreen || request is ReadScratchpad || request is RemoveProject || request is RenameProject || request is RunAction || request is ListProjects || request is ListSessions || request is ListMultiplexerPanes ==> lane_of(request) == Lane::Frame,
{
}

/// A route is on the lane it is built for.
pub proof fn a_route_is_on_its_lane(c: ConnectionRequest, d: DeferredRequest, f: FrameRequest)
    ensures
        Route::Connection(c).lane() == Lane::Connection,
        Route::App(AppRequest::Deferred(d)).lane() == Lane::Deferred,
        Route::App(AppRequest::Frame(f)).lane() == Lane::Frame,
{
}

/// A route carries the request it was made of, part for part.
pub proof fn a_route_carries_its_request(route: Route)
    ensures
        route matches Route::App(AppRequest::Frame(FrameRequest::SelectWorkspace { path })) ==> {
            &&& route.carried() matches Asked::SelectWorkspace { path: seen_path }
            &&& path is None <==> seen_path is None
            &&& path is Some ==> seen_path == Some(path->0@)
        },
        route matches Route::App(AppRequest::Deferred(DeferredRequest::CreateSession { workspace })) ==> {
            &&& route.carried() matches Asked::CreateSession { workspace: seen_workspace }
            &&& workspace is None <==> seen_workspace is None
            &&& workspace is Some ==> seen_workspace == Some(workspace->0@)
        },
        route matches Route::App(AppRequest::Frame(FrameRequest::CloseSession { session_id })) ==> {
            &&& route.carried() matches Asked::CloseSession { session_id: seen_session_id }
            &&& seen_session_id == session_id
        },
        route matches Route::App(AppRequest::Frame(FrameRequest::SendText { session_id, text })) ==> {
            &&& route.carried() matches Asked::SendText { session_id: seen_session_id, text: seen_text }
            &&& seen_session_id == session_id
            &&& seen_text == text@
        },
        route matches Route::App(AppRequest::Frame(FrameRequest::MoveSession { session_id, path })) ==> {
            &&& route.carried() matches Asked::MoveSession { session_id: seen_session_id, path: seen_path }
            &&& seen_session_id == session_id
            &&& seen_path == path@
        },
        route matches Route::App(AppRequest::Frame(FrameRequest::ReadScreen { session_id, scrollback_lines })) ==> {
            &&& route.carried() matches Asked::ReadScreen { session_id: seen_session_id, scrollback_lines: seen_scrollback_lines }
            &&& seen_session_id == session_id
            &&& seen_scrollback_lines == scrollback_lines
        },
        route matches Route::App(AppRequest::Frame(FrameRequest::ReadScratchpad { workspace })) ==> {
            &&& route.carried() matches Asked::ReadScratchpad { workspace: seen_workspace }
            &&& workspace is None <==> seen_workspace is None
            &&& workspace is Some ==> seen_workspace == Some(workspace->0@)
        },
        route matches Route::App(AppRequest::Deferred(DeferredRequest::RefreshProject { root })) ==> {
            &&& route.carried() matches Asked::RefreshProject { root: seen_root }
            &&& seen_root == root@
        },
        route matches Route::App(AppRequest::Deferred(DeferredRequest::AddProject { path })) ==> {
            &&& route.carried() matches Asked::AddProject { path: seen_path }
            &&& seen_path == path@
        },
        route matches Route::App(AppRequest::Frame(FrameRequest::RemoveProject { root })) ==> {
            &&& route.carried() matches Asked::RemoveProject { root: seen_root }
            &&& seen_root == root@
        },
        route matches Route::App(AppRequest::Frame(FrameRequest::RenameProject { root, label })) ==> {
            &&& route.carried() matches Asked::RenameProject { root: seen_root, label: seen_label }
            &&& seen_root == root@
            &&& label is None <==> seen_label is None
            &&& label is Some ==> seen_label == Some(label->0@)
        },
        route matches Route::Connection(ConnectionRequest::GitStatus { path }) ==> {
            &&& route.carried() matches Asked::GitStatus { path: seen_path }
            &&& seen_path == path@
        },
        route matches Route::Connection(ConnectionRequest::CreateWorktree { project_root, branch }) ==> {
            &&& route.carried() matches Asked::CreateWorktree { project_root: seen_project_root, branch: seen_branch }
            &&& seen_project_root == project_root@
            &&& seen_branch == branch@
        },
        route matches Route::App(AppRequest::Deferred(DeferredRequest::AttachMultiplexerPane { multiplexer, side, terminal_id, no_focus })) ==> {
            &&& route.carried() matches Asked::AttachMultiplexerPane { multiplexer: seen_multiplexer, side: seen_side, terminal_id: seen_terminal_id, no_focus: seen_no_focus }
            &&& multiplexer is None <==> seen_multiplexer is None
            &&& multiplexer is Some ==> seen_multiplexer == Some(multiplexer->0@)
            &&& seen_side == side@
            &&& seen_terminal_id == terminal_id@
            &&& seen_no_focus == no_focus
        },
        route matches Route::App(AppRequest::Deferred(DeferredRequest::CreateMultiplexerPane { multiplexer, side, workspace, no_focus })) ==> {
            &&& route.carried() matches Asked::CreateMultiplexerPane { multiplexer: seen_multiplexer, side: seen_side, workspace: seen_workspace, no_focus: seen_no_focus }
            &&& multiplexer is None <==> seen_multiplexer is None
            &&& multiplexer is Some ==> seen_multiplexer == Some(multiplexer->0@)
            &&& side is None <==> seen_side is None
            &&& side is Some ==> seen_side == Some(side->0@)
            &&& workspace is None <==> seen_workspace is None
            &&& workspace is Some ==> seen_workspace == Some(workspace->0@)
            &&& seen_no_focus == no_focus
        },
        route matches Route::App(AppRequest::Frame(FrameRequest::RunAction { action })) ==> {
            &&& route.carried() matches Asked::RunAction { action: seen_action }
            &&& seen_action == action@
        },
        route == Route::App(AppRequest::Frame(FrameRequest::ListProjects)) ==> route.carried() == Asked::ListProjects,
        route == Route::App(AppRequest::Frame(FrameRequest::ListSessions)) ==> route.carried() == Asked::ListSessions,
        route == Route::App(AppRequest::Frame(FrameRequest::ListMultiplexerPanes)) ==> route.carried() == Asked::ListMultiplexerPanes,
{
}

/// A variable that WSL already passes on is left as it is; another is added
/// behind a colon, or alone where none is passed on.
pub proof fn a_variable_is_added_behind_the_others(wslenv: Seq<char>, name: Seq<char>, flags: Seq<char>)
    ensures
        lists(wslenv, name) ==> listing(wslenv, name, flags) == wslenv,
        !lists(wslenv, name) && wslenv.len() > 0 ==> listing(wslenv, name, flags) == wslenv + seq![':'] + name + flags,
        !lists(wslenv, name) && wslenv.len() == 0 ==> listing(wslenv, name, flags) == name + flags,
{
}

/// What is passed on to WSL are the socket, the session and the program, the
/// last as a path.
pub proof fn what_is_passed_on_to_wsl(wslenv: Seq<char>)
    ensures
        shared_env(wslenv) == listing(
            listing(listing(wslenv, "ALACRITREE_SOCKET"@, Seq::empty()), "ALACRITREE_SESSION_ID"@, Seq::empty()),
            "ALACRITREE_EXE"@,
            seq!['/', 'p'],
        ),
{
    reveal_strlit("");
    reveal_strlit("/p");
    assert(""@ =~= Seq::empty());
    assert("/p"@ =~= seq!['/', 'p']);
}

/// Why a worktree was not created, in words; a budget is told in seconds.
pub proof fn why_a_worktree_was_not_created(message: String, seconds: u64)
    requires
        seconds <= 1_000_000,
    ensures
        create_error_text(CreateError::Failed(message)) == message@,
        create_error_text(CreateError::OverBudget((seconds * 1000) as u64)) == "worktree create exceeded "@ + decimal(
            seconds as nat,
        ) + "s"@,
        create_error_text(CreateError::Unreported) == "the worktree create ended without reporting"@,
{
    assert((seconds * 1000) / 1000 == seconds);
}

/// The time left is what there is until the deadline, and none after it.
pub proof fn the_time_that_is_left(deadline: u64, now: u64)
    ensures
        now <= deadline ==> left_until(deadline, now) + now == deadline,
        now >= deadline ==> left_until(deadline, now) == 0,
{
}

/// What the application answered is the answer; where it is gone or silent,
/// that is said.
pub proof fn what_the_application_answers(value: crate::json::Json, words: String)
    ensures
        app_answer(AppReply::Answered(Ok(value))) == Ok::<Tree, Seq<char>>(value@),
        app_answer(AppReply::Answered(Err(words))) == Err::<Tree, Seq<char>>(words@),
        app_answer(AppReply::Gone) == Err::<Tree, Seq<char>>("alacritree is shutting down"@),
        app_answer(AppReply::Silent) == Err::<Tree, Seq<char>>("alacritree did not respond (app busy or closed)"@),
{
}

/// A created worktree is told by its path and by every step that was taken, in
/// order; one that was not created by why.
pub proof fn how_a_created_worktree_is_told(path: String, steps: Vec<String>, error: CreateError, i: int)
    ensures
        created_answer(Ok((path, steps))) is Ok,
        member(created_answer(Ok((path, steps)))->Ok_0, "path"@) == Some(Tree::Text(path@)),
        ({
            let told = member(created_answer(Ok((path, steps)))->Ok_0, "steps"@);
            &&& told is Some && told->0 is Array
            &&& told->0->Array_0.len() == steps@.len()
            &&& 0 <= i < steps@.len() ==> told->0->Array_0[i] == Tree::Text(steps@[i]@)
        }),
        created_answer(Err(error)) == Err::<Tree, Seq<char>>(create_error_text(error)),
{
    reveal_strlit("path");
    reveal_strlit("steps");
    assert("path"@.len() != "steps"@.len());
    reveal_with_fuel(lookup, 3);
}

} // verus!

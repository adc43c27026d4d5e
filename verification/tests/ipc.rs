use alacritree::ipc::protocol::{
    find_socket, git_status_json, is_socket_name, kind_name, read_reply, reply_line, runtime_dir,
    socket_file, BranchDiff, ChangeKind, FileChange, GitStatus, HuntEvent, HuntStage, HuntStep,
    SendError, SocketEntry, SOCKET_ENV,
};
use alacritree::ipc::request::{read_line, IpcRequest, Unread};
use alacritree::ipc::route::{
    AppRequest, ConnectionRequest, DeferredRequest, FrameRequest, Route,
};
use alacritree::ipc::server::{
    call_app, created_reply, dispatch, wslenv_with_alacritree_vars, AppReply, CreateDrain,
    CreateError, CreateEvent, DrainStep, EXE_ENV, SESSION_ID_ENV,
};
use alacritree::json::{object, Json};

fn every_request() -> Vec<IpcRequest> {
    let text = || "x".to_string();
    vec![
        IpcRequest::ListProjects,
        IpcRequest::ListSessions,
        IpcRequest::SelectWorkspace { path: None },
        IpcRequest::CreateSession { workspace: Some(text()) },
        IpcRequest::CloseSession { session_id: 7 },
        IpcRequest::SendText { session_id: 7, text: text() },
        IpcRequest::MoveSession { session_id: 7, path: text() },
        IpcRequest::ReadScreen { session_id: 7, scrollback_lines: 9 },
        IpcRequest::ReadScratchpad { workspace: None },
        IpcRequest::RefreshProject { root: text() },
        IpcRequest::AddProject { path: text() },
        IpcRequest::RemoveProject { root: text() },
        IpcRequest::RenameProject { root: text(), label: Some(text()) },
        IpcRequest::GitStatus { path: text() },
        IpcRequest::CreateWorktree { project_root: text(), branch: text() },
        IpcRequest::ListMultiplexerPanes,
        IpcRequest::AttachMultiplexerPane {
            multiplexer: None,
            side: text(),
            terminal_id: text(),
            no_focus: true,
        },
        IpcRequest::CreateMultiplexerPane {
            multiplexer: Some(text()),
            side: None,
            workspace: None,
            no_focus: false,
        },
        IpcRequest::RunAction { action: text() },
    ]
}

/// A route arm that built the wrong variant still compiles. The variant name
/// surviving the trip is what catches it.
#[test]
fn every_request_keeps_its_name_through_routing() {
    for request in every_request() {
        let name = request.name();
        assert_eq!(Route::from(request).name(), name);
    }
}

/// Where the slow requests run is the point of routing, so it is pinned.
#[test]
fn slow_git_work_stays_on_the_connection_thread() {
    let status = IpcRequest::GitStatus { path: "/repo".to_string() };
    assert!(matches!(Route::from(status), Route::Connection(_)));

    let create =
        IpcRequest::CreateWorktree { project_root: "/repo".to_string(), branch: "b".into() };
    assert!(matches!(Route::from(create), Route::Connection(_)));
}

#[test]
fn a_session_create_waits_for_its_pty() {
    let create = IpcRequest::CreateSession { workspace: None };
    assert!(matches!(
        Route::from(create),
        Route::App(AppRequest::Deferred(DeferredRequest::CreateSession { .. }))
    ));
}

/// A client does not necessarily inherit the runtime directory. Both processes
/// must still derive the conventional per-user directory.
#[test]
fn socket_discovery_survives_a_missing_xdg_runtime_dir() {
    let uid = 1000;
    assert_eq!(runtime_dir(None, Some(uid)), Some(format!("/run/user/{uid}")));
    assert_eq!(runtime_dir(Some(""), Some(uid)), Some(format!("/run/user/{uid}")));
    assert_eq!(runtime_dir(Some("/x"), Some(uid)), Some("/x".to_string()));
    assert_eq!(runtime_dir(None, None), None);
}

#[test]
fn wslenv_gains_the_socket_exactly_once() {
    let ours = format!("{SOCKET_ENV}:{SESSION_ID_ENV}:{EXE_ENV}/p");
    assert_eq!(wslenv_with_alacritree_vars(None), ours);
    assert_eq!(wslenv_with_alacritree_vars(Some("")), ours);
    assert_eq!(wslenv_with_alacritree_vars(Some("LESS:FOO/p")), format!("LESS:FOO/p:{ours}"));
    // Already listed, with or without conversion flags, is not repeated.
    assert_eq!(wslenv_with_alacritree_vars(Some(&ours)), ours);
    let flagged = format!("{SOCKET_ENV}/u:LESS");
    assert_eq!(
        wslenv_with_alacritree_vars(Some(&flagged)),
        format!("{flagged}:{SESSION_ID_ENV}:{EXE_ENV}/p")
    );
}

/// The binary path is the one variable WSL must rewrite.
#[test]
fn wslenv_lists_the_exe_path_for_conversion() {
    assert!(wslenv_with_alacritree_vars(None).ends_with(&format!("{EXE_ENV}/p")));
    // A user who already shares it, however flagged, keeps their spelling.
    let theirs = format!("{EXE_ENV}/up");
    assert_eq!(
        wslenv_with_alacritree_vars(Some(&theirs)),
        format!("{theirs}:{SOCKET_ENV}:{SESSION_ID_ENV}")
    );
}

/// Shells in a distro read their own id from the environment.
#[test]
fn wslenv_gains_the_session_id_exactly_once() {
    assert_eq!(
        wslenv_with_alacritree_vars(None),
        format!("{SOCKET_ENV}:{SESSION_ID_ENV}:{EXE_ENV}/p")
    );
    let flagged = format!("{SESSION_ID_ENV}/u");
    assert_eq!(
        wslenv_with_alacritree_vars(Some(&flagged)),
        format!("{flagged}:{SOCKET_ENV}:{EXE_ENV}/p")
    );
}

/// The deadline is absolute: a job that keeps reporting does not outlive it.
#[test]
fn a_dribbling_create_still_ends_at_the_budget() {
    let budget = 300;
    let mut drain = CreateDrain::new(budget, 0);
    for step in 1..6 {
        let now = step * 50;
        let taken = drain.take(CreateEvent::Step("working".into()), now);
        assert_eq!(taken, DrainStep::Wait(budget - now));
    }
    assert_eq!(drain.left(300), 0);
    let outcome = drain.take(CreateEvent::Timeout, 300);
    assert_eq!(outcome, DrainStep::Finished(Err(CreateError::OverBudget(budget))));
}

#[test]
fn a_create_reports_its_path_and_its_steps() {
    let mut drain = CreateDrain::new(120_000, 0);
    drain.take(CreateEvent::Step("fetching".into()), 1);
    let done = drain.take(CreateEvent::Done(Ok("/w".into())), 2);
    let DrainStep::Finished(outcome) = done else { panic!("the create is done") };
    assert_eq!(outcome, Ok(("/w".to_string(), vec!["fetching".to_string()])));
    let reply = created_reply(outcome).expect("a path");
    assert_eq!(reply.text_at("path"), Some("/w".to_string()));
    let mut drain = CreateDrain::new(120_000, 0);
    assert_eq!(
        drain.take(CreateEvent::Disconnected, 1),
        DrainStep::Finished(Err(CreateError::Unreported))
    );
    assert_eq!(created_reply(Err(CreateError::Failed("no".into()))), Err("no".to_string()));
    assert_eq!(CreateError::OverBudget(120_000).message(), "worktree create exceeded 120s");
}

/// A request written on the wire is read back as itself.
#[test]
fn every_request_crosses_the_wire() {
    for request in every_request() {
        let line = request.line();
        assert_eq!(read_line(&line, None).as_ref(), Ok(&request), "{line}");
        assert_eq!(IpcRequest::read(&request.document()).as_ref(), Some(&request));
    }
}

#[test]
fn a_request_is_read_as_it_is_spelled() {
    assert_eq!(
        read_line(r#"{"type":"read_screen","session_id":3,"scrollback_lines":5,"extra":1}"#, None),
        Ok(IpcRequest::ReadScreen { session_id: 3, scrollback_lines: 5 })
    );
    assert_eq!(read_line(r#"{"type":"list_sessions"}"#, None), Ok(IpcRequest::ListSessions));
    let negative = read_line(r#"{"type":"close_session","session_id":-1}"#, None);
    assert_eq!(negative, Err(Unread::NoRequest));
    assert_eq!(read_line(r#"{"type":"nope"}"#, None), Err(Unread::NoRequest));
    let Err(unread) = read_line("{", None) else { panic!("no document") };
    assert_eq!(unread.message(), "invalid IPC request: EOF while parsing an object at line 1 column 1");
    assert_eq!(Unread::NoRequest.message(), "invalid IPC request: not a request");
}

/// A line that the wire's own reader refuses is refused in its words, though
/// its document reads as a request.
#[test]
fn a_line_refused_on_the_wire_asks_nothing() {
    let line = r#"{"type":"close_session","session_id":1,"session_id":2}"#;
    assert_eq!(read_line(line, None), Ok(IpcRequest::CloseSession { session_id: 2 }));
    let words = "duplicate field `session_id`";
    let refused = read_line(line, Some(words));
    assert_eq!(refused, Err(Unread::Refused(words.to_string())));
    let Err(unread) = dispatch(line, Some(words)) else { panic!("refused") };
    assert_eq!(unread.message(), "invalid IPC request: duplicate field `session_id`");
}

#[test]
fn a_line_is_dispatched_to_its_lane() {
    let route = dispatch(r#"{"type":"list_projects"}"#, None);
    assert!(matches!(route, Ok(Route::App(AppRequest::Frame(FrameRequest::ListProjects)))));
    let route = dispatch(r#"{"type":"git_status","path":"/r"}"#, None);
    assert!(matches!(
        route,
        Ok(Route::Connection(ConnectionRequest::GitStatus { path })) if path == "/r"
    ));
    assert!(dispatch("nonsense", None).is_err());
}

#[test]
fn an_app_that_does_not_answer_is_reported() {
    assert_eq!(call_app(AppReply::Gone), Err("alacritree is shutting down".to_string()));
    assert_eq!(
        call_app(AppReply::Silent),
        Err("alacritree did not respond (app busy or closed)".to_string())
    );
    assert_eq!(call_app(AppReply::Answered(Ok(Json::Null))), Ok(Json::Null));
}

#[test]
fn an_answer_crosses_the_wire() {
    let value = object(vec![("sessions".to_string(), Json::Array(vec![]))]);
    let line = reply_line(Ok(value.copy()));
    assert_eq!(read_reply(&line), Ok(value));
    let line = reply_line(Err("no such session".to_string()));
    assert_eq!(read_reply(&line), Err(SendError::Refused("no such session".to_string())));
    assert!(read_reply("garbage").is_err());
}

#[test]
fn a_socket_is_named_as_one() {
    assert_eq!(socket_file(42), "alacritree-42.sock");
    assert!(is_socket_name("alacritree-42.sock"));
    assert!(!is_socket_name("alacritree-42"));
    assert!(!is_socket_name("other-42.sock"));
}

#[test]
fn a_search_tries_the_given_path_alone() {
    let (mut hunt, step) = find_socket(Some("/s".into()), Some("/e".into()));
    assert_eq!(step, HuntStep::Connect("/s".into()));
    assert_eq!(hunt.next(HuntEvent::Unlisted), None);
    assert_eq!(hunt.next(HuntEvent::Refused), Some((None, HuntStep::NotFound)));
    assert_eq!(hunt.stage, HuntStage::Over);
    let (mut hunt, _) = find_socket(Some("/s".into()), None);
    assert_eq!(hunt.next(HuntEvent::Connected), Some((None, HuntStep::Found)));
}

/// A socket nothing listens on was left behind by a process that crashed.
#[test]
fn a_search_removes_the_dead_sockets_it_meets() {
    let entry = |name: &str| SocketEntry { path: format!("/d/{name}"), name: name.into() };
    let (mut hunt, step) = find_socket(None, Some("/e".into()));
    assert_eq!(step, HuntStep::Connect("/e".into()));
    assert_eq!(hunt.next(HuntEvent::Refused), Some((None, HuntStep::List)));
    let listed = vec![entry("alacritree-1.sock"), entry("bus"), entry("alacritree-2.sock")];
    assert_eq!(
        hunt.next(HuntEvent::Listed(listed)),
        Some((None, HuntStep::Connect("/d/alacritree-1.sock".into())))
    );
    assert_eq!(
        hunt.next(HuntEvent::Refused),
        Some((
            Some("/d/alacritree-1.sock".into()),
            HuntStep::Connect("/d/alacritree-2.sock".into())
        ))
    );
    assert_eq!(
        hunt.next(HuntEvent::Refused),
        Some((Some("/d/alacritree-2.sock".into()), HuntStep::NotFound))
    );
    let (mut hunt, step) = find_socket(None, None);
    assert_eq!(step, HuntStep::List);
    assert_eq!(hunt.next(HuntEvent::Unlisted), Some((None, HuntStep::NotFound)));
}

#[test]
fn a_git_status_is_told_as_a_document() {
    let change = |path: &str, kind| FileChange { path: path.into(), kind };
    let status = GitStatus {
        error: None,
        branch: Some("topic".into()),
        default_branch: None,
        staged: vec![change("a", ChangeKind::Added)],
        unstaged: vec![],
        branch_diff: vec![BranchDiff { path: "b".into(), additions: 3, deletions: 1 }],
    };
    assert_eq!(
        git_status_json(&status).line(),
        concat_lines(&[
            r#"{"branch":"topic","default_branch":null,"#,
            r#""diff_vs_default_branch":[{"additions":3,"deletions":1,"path":"b"}],"#,
            r#""staged":[{"kind":"added","path":"a"}],"unstaged":[]}"#,
        ])
    );
    let failed = GitStatus { error: Some("no repository".into()), ..status };
    assert_eq!(git_status_json(&failed).line(), r#"{"error":"no repository"}"#);
    assert_eq!(kind_name(ChangeKind::Conflicted), "conflicted");
}

fn concat_lines(lines: &[&str]) -> String {
    lines.concat()
}

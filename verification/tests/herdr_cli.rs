use alacritree::herdr::cli::{
    attach_command, bridge_command, call_level, call_line, CallLevel, Transport, SLOW_CALL, ChildCall, ChildEvent, ChildStage, ChildStep, HelperAnswer, create_args, create_pane, decode_answer,
    focus_pane, focus_request, gesture_answered, gesture_focused, gesture_start, helper_args, helper_outcome,
    helper_reply, helper_script, list_panes, running_session_name, CallError,
    GestureStep, Reply, HELPER_COMMAND, HELPER_DEADLINE, HELPER_REQUEST, NO_ANSWER, STDERR_GRACE,
};
use alacritree::herdr::model::{
    attach_args, attaches_directly, can_attach, focus_args, focus_pane_args, AttachMode, Listing,
    PollError,
};
use alacritree::side::{Platform, Side};

fn direct(side: &Side, mode: AttachMode, has_agent: bool) -> bool {
    attaches_directly(side, mode, has_agent, Platform::Unix)
}

const PANES: &str = r#"{"id":"cli:pane:list","result":{"panes":[
    {"agent":"amp","agent_status":"idle","pane_id":"w1:p1","tab_id":"w1:t1",
     "terminal_id":"term_a","cwd":"C:\\projects\\alacritree","focused":true,
     "terminal_title":"✫ Amp Code","terminal_title_stripped":"Amp Code",
     "scroll":{"offset_from_bottom":0},"workspace_id":"w1"},
    {"agent_status":"unknown","pane_id":"w1:p4","tab_id":"w1:t4",
     "terminal_id":"term_b","cwd":"C:\\projects\\alacritree","focused":false,
     "terminal_title":"~/p/alacritree","terminal_title_stripped":"~/p/alacritree",
     "scroll":{"offset_from_bottom":0},"workspace_id":"w1"}],"type":"pane_list"}}"#;

#[test]
fn a_focus_names_the_pane_to_the_socket() {
    let request: serde_json::Value = serde_json::from_str(&focus_request("w1:p4")).unwrap();
    assert_eq!(request["method"], "pane.focus");
    assert_eq!(request["params"]["pane_id"], "w1:p4");
}

/// Answers captured from herdr 0.9.1's socket.
#[test]
fn a_focus_answer_is_a_pane_or_herdr_s_refusal() {
    let focused = r#"{"id":"alacritree:focus","result":{"type":"pane_info","pane":{"pane_id":"w11:p7","focused":true}}}"#;
    assert_eq!(decode_answer(focused), Ok(()));
    let refused = r#"{"id":"alacritree:focus","error":{"code":"pane_not_found","message":"pane w99:p9 not found"}}"#;
    assert_eq!(decode_answer(refused), Err("pane w99:p9 not found".to_string()));
    assert_eq!(decode_answer("garbage\n"), Err("garbage".to_string()));
}

/// A pane herdr detected no agent in has nothing `herdr agent attach`
/// could resolve, whatever the side and the configured mode allow.
#[test]
fn cli_a_pane_with_no_agent_never_attaches_directly() {
    assert!(!direct(&Side::Wsl("d".into()), AttachMode::Agent, false));
}

#[test]
fn cli_native_windows_cannot_attach_directly() {
    assert!(can_attach(&Side::Native, Platform::Unix));
    assert!(!can_attach(&Side::Native, Platform::Windows));
}

/// A WSL server runs herdr's unix build whatever the host is.
#[test]
fn cli_wsl_can_always_attach() {
    assert!(can_attach(&Side::Wsl("d".into()), Platform::Unix));
    assert!(can_attach(&Side::Wsl("d".into()), Platform::Windows));
}

/// The preference can only ever give up a direct attach, never conjure
/// one on a side that has none.
#[test]
fn cli_asking_for_the_session_gives_up_a_direct_attach() {
    let wsl = Side::Wsl("d".into());
    assert!(direct(&wsl, AttachMode::Agent, true));
    assert!(!direct(&wsl, AttachMode::Session, true));
    assert!(!direct(&Side::Native, AttachMode::Session, true));
    assert!(direct(&Side::Native, AttachMode::Agent, true));
    assert!(!attaches_directly(&Side::Native, AttachMode::Agent, true, Platform::Windows));
}

/// Every herdr app client draws whatever herdr has focused, so a pane
/// created without `--focus` would be attached to while the window still
/// showed the pane before it.
#[test]
fn a_created_pane_is_focused_and_takes_a_cwd_only_when_one_is_chosen() {
    assert_eq!(create_args(None, true), vec!["tab", "create", "--focus"]);
    assert_eq!(create_args(Some("/tmp/review"), true), vec![
        "tab",
        "create",
        "--focus",
        "--cwd",
        "/tmp/review"
    ]);
}

/// herdr focuses a new tab unless told otherwise, so leaving the user's
/// window alone has to be said out loud.
#[test]
fn a_pane_created_without_focus_says_so() {
    assert_eq!(create_args(None, false), vec!["tab", "create", "--no-focus"]);
}

#[test]
fn cli_direct_attach_targets_the_pane_id() {
    assert_eq!(attach_args("w5:p1"), vec!["agent", "attach", "w5:p1"]);
}

/// `herdr agent focus` answers `agent_not_found` for a pane with no agent
/// in it, so the tab is the only handle such a pane has.
#[test]
fn a_pane_with_no_agent_is_focused_through_its_tab() {
    let panes = Listing::Panes.parse(PANES);
    assert_eq!(focus_args(&panes[0]), vec!["agent", "focus", "w1:p1"]);
    assert_eq!(focus_args(&panes[1]), vec!["tab", "focus", "w1:t4"]);
}

/// A pane herdr detected no agent in has nothing `herdr agent attach`
/// could resolve, whatever the side and the configured mode allow.
#[test]
fn herdr_a_pane_with_no_agent_never_attaches_directly() {
    assert!(!direct(&Side::Wsl("d".into()), AttachMode::Agent, false));
}

#[test]
fn herdr_native_windows_cannot_attach_directly() {
    assert!(can_attach(&Side::Native, Platform::Unix));
    assert!(!can_attach(&Side::Native, Platform::Windows));
}

/// A WSL server runs herdr's unix build whatever the host is.
#[test]
fn herdr_wsl_can_always_attach() {
    assert!(can_attach(&Side::Wsl("d".into()), Platform::Unix));
    assert!(can_attach(&Side::Wsl("d".into()), Platform::Windows));
}

/// The preference can only ever give up a direct attach, never conjure
/// one on a side that has none.
#[test]
fn herdr_asking_for_the_session_gives_up_a_direct_attach() {
    let wsl = Side::Wsl("d".into());
    assert!(direct(&wsl, AttachMode::Agent, true));
    assert!(!direct(&wsl, AttachMode::Session, true));
    assert!(!direct(&Side::Native, AttachMode::Session, true));
    assert!(direct(&Side::Native, AttachMode::Agent, true));
    assert!(!attaches_directly(&Side::Native, AttachMode::Agent, true, Platform::Windows));
}

#[test]
fn herdr_native_runs_herdr_directly() {
    let (program, args) = Side::Native.command("herdr", &["agent", "list"]);
    assert_eq!(program, "herdr");
    assert_eq!(args, vec!["agent", "list"]);
}

/// herdr installs to ~/.local/bin, which reaches PATH only under a login
/// shell.  `wsl.exe -e herdr` fails with execvpe ENOENT.
#[test]
fn herdr_wsl_wraps_in_a_login_shell() {
    let (program, args) = Side::Wsl("kali-linux".into()).command("herdr", &["agent", "list"]);
    assert_eq!(program, "wsl.exe");
    assert_eq!(args, vec!["-d", "kali-linux", "--exec", "sh", "-lc", "herdr agent list"]);
}

#[test]
fn herdr_wsl_quotes_arguments_that_need_it() {
    let (_, args) = Side::Wsl("d".into()).command("herdr", &["agent", "attach", "w1:p1"]);
    assert_eq!(args.last().unwrap(), "herdr agent attach 'w1:p1'");
}

#[test]
fn herdr_direct_attach_targets_the_pane_id() {
    assert_eq!(attach_args("w5:p1"), vec!["agent", "attach", "w5:p1"]);
}

fn answered(ok: bool, stdout: &str, stderr: &str) -> Result<Reply, CallError> {
    Ok(Reply { ok, stdout: stdout.as_bytes().to_vec(), stderr: stderr.to_string() })
}

#[test]
fn a_call_that_never_answered_is_refused_in_words() {
    assert_eq!(NO_ANSWER, "herdr did not answer");
    let silent: Result<Reply, CallError> = Err(CallError::NoAnswer);
    assert_eq!(
        focus_pane(&silent),
        Err("herdr did not answer while focusing the pane".to_string())
    );
    let failed: Result<Reply, CallError> = Err(CallError::Failed("x".into()));
    assert_eq!(focus_pane(&failed), Err("failed to focus herdr pane: x".to_string()));
    assert_eq!(
        focus_pane(&answered(false, "", " no such pane \n")),
        Err("failed to focus herdr pane: no such pane".to_string())
    );
    assert_eq!(
        focus_pane(&answered(true, "garbage\n", "")),
        Err("herdr refused to focus the pane: garbage".to_string())
    );
    assert_eq!(focus_pane(&answered(true, r#"{"result":{}}"#, "")), Ok(()));
    assert_eq!(
        running_session_name(&silent),
        Err("herdr did not answer while listing its sessions".to_string())
    );
    assert_eq!(running_session_name(&failed), Ok("default".to_string()));
    assert_eq!(running_session_name(&answered(true, "{", "")), Ok("default".to_string()));
    let named = r#"{"sessions":[{"name":"main","running":true}]}"#;
    assert_eq!(running_session_name(&answered(true, named, "")), Ok("main".to_string()));
    assert_eq!(
        create_pane(&silent),
        Err("herdr did not answer while creating the pane".to_string())
    );
}

#[test]
fn a_listing_tells_no_server_from_no_herdr() {
    assert_eq!(list_panes(&answered(true, "{}", "")), Ok("{}".to_string()));
    let down = r#"{"error":{"code":"server_not_running","message":"x"}}"#;
    assert_eq!(
        list_panes(&answered(false, "", down)),
        Err(PollError::Server("server_not_running".into()))
    );
    assert!(matches!(list_panes(&answered(false, "", "sh: herdr")), Err(PollError::Absent(_))));
    assert!(matches!(list_panes(&Err(CallError::NoAnswer)), Err(PollError::Absent(_))));
}

#[test]
fn a_created_pane_is_named_by_the_answer() {
    let made = r#"{"result":{"root_pane":{"terminal_id":"t9","pane_id":"w1:p9"}}}"#;
    let pane = create_pane(&answered(true, made, ""));
    assert_eq!(pane.map(|p| (p.terminal_id, p.pane_id)), Ok(("t9".into(), "w1:p9".into())));
    assert_eq!(
        create_pane(&answered(true, "{}", "")),
        Err("herdr answered with no pane".to_string())
    );
    assert_eq!(
        create_pane(&answered(false, "", "refused")),
        Err("herdr refused to create the pane: refused".to_string())
    );
}

#[test]
fn an_attach_focuses_then_names_then_starts() {
    assert_eq!(gesture_start(Some("w1:p1"), None), GestureStep::Focus("w1:p1".into()));
    assert_eq!(gesture_start(None, Some("main")), GestureStep::Attach("main".into()));
    assert_eq!(gesture_start(None, None), GestureStep::NameSession);
    assert_eq!(gesture_focused(Ok(()), Some("main")), GestureStep::Attach("main".into()));
    assert_eq!(gesture_focused(Ok(()), None), GestureStep::NameSession);
    assert_eq!(gesture_focused(Err("no".into()), None), GestureStep::Refuse("no".into()));
    assert_eq!(gesture_answered(Ok("main".into())), GestureStep::Attach("main".into()));
    assert_eq!(gesture_answered(Err("no".into())), GestureStep::Refuse("no".into()));
}

#[test]
fn a_client_is_started_on_its_session() {
    let (program, args) = attach_command(&Side::Native, "herdr", "main");
    assert_eq!((program.as_str(), args), ("herdr", vec!["session".into(), "attach".into(), "main".to_string()]));
    let (program, _) = bridge_command(&Side::Wsl("d".into()), "herdr");
    assert_eq!(program, "wsl.exe");
}

#[test]
fn a_helper_carries_the_call_it_makes() {
    assert_eq!(helper_script(false), format!("{HELPER_DEADLINE}{HELPER_COMMAND}"));
    assert_eq!(helper_script(true), format!("{HELPER_DEADLINE}{HELPER_REQUEST}"));
    assert_eq!(helper_args(None, None, "herdr", &["agent", "list"])[0], "-");
    let args = helper_args(Some(5), Some("{}"), "herdr", &["x"]);
    assert_eq!(args, vec!["6".to_string(), "{}".into(), "herdr".into(), "x".into()]);
}

#[test]
fn a_failed_helper_answers_on_the_error_stream() {
    let reply = helper_reply(false, 3, b"refused".to_vec());
    assert!(!reply.ok);
    assert_eq!(reply.stderr, "refused");
    let reply = helper_reply(false, 0, b"out".to_vec());
    assert!(reply.ok);
    assert_eq!(reply.stdout, b"out".to_vec());
}

/// A request is answered by one line, after which the bridge is killed.
#[test]
fn a_one_line_call_is_done_once_it_answered() {
    let mut call = ChildCall::new(true, Some(3_000));
    assert_eq!(call.next(ChildEvent::Killed), None);
    assert_eq!(call.next(ChildEvent::Spawned { pipes: true }), Some(ChildStep::Send));
    assert_eq!(call.next(ChildEvent::Sent), Some(ChildStep::Read { one_line: true }));
    assert_eq!(call.next(ChildEvent::ReaderUp), Some(ChildStep::Await(Some(3_000))));
    assert_eq!(call.next(ChildEvent::Printed(b"line\n".to_vec())), Some(ChildStep::Kill));
    assert_eq!(call.next(ChildEvent::Killed), Some(ChildStep::Reap));
    let reply = Reply { ok: true, stdout: b"line\n".to_vec(), stderr: String::new() };
    assert_eq!(
        call.next(ChildEvent::Exited { well: false }),
        Some(ChildStep::Done(Ok(reply)))
    );
    assert_eq!(call.stage, ChildStage::Over);
}

#[test]
fn a_command_that_failed_is_explained() {
    let mut call = ChildCall::new(false, None);
    assert_eq!(
        call.next(ChildEvent::Spawned { pipes: true }),
        Some(ChildStep::Read { one_line: false })
    );
    assert_eq!(call.next(ChildEvent::ReaderUp), Some(ChildStep::Await(None)));
    assert_eq!(call.next(ChildEvent::Printed(b"out".to_vec())), Some(ChildStep::Reap));
    assert_eq!(
        call.next(ChildEvent::Exited { well: false }),
        Some(ChildStep::Explain(STDERR_GRACE))
    );
    let reply = Reply { ok: false, stdout: b"out".to_vec(), stderr: "err".into() };
    assert_eq!(
        call.next(ChildEvent::Said(Some("err".into()))),
        Some(ChildStep::Done(Ok(reply)))
    );
}

#[test]
fn a_call_that_runs_out_its_time_is_killed_and_reaped() {
    let mut call = ChildCall::new(false, Some(10));
    call.next(ChildEvent::Spawned { pipes: true });
    call.next(ChildEvent::ReaderUp);
    assert_eq!(call.next(ChildEvent::Silent), Some(ChildStep::Kill));
    assert_eq!(call.next(ChildEvent::Killed), Some(ChildStep::Reap));
    assert_eq!(
        call.next(ChildEvent::Exited { well: false }),
        Some(ChildStep::Done(Err(CallError::NoAnswer)))
    );
}

#[test]
fn no_child_is_left_behind() {
    let mut call = ChildCall::new(false, None);
    assert_eq!(call.next(ChildEvent::Spawned { pipes: false }), Some(ChildStep::Kill));
    assert_eq!(call.next(ChildEvent::Killed), Some(ChildStep::Reap));
    let refused = CallError::Failed("herdr started without its pipes".into());
    assert_eq!(
        call.next(ChildEvent::Exited { well: false }),
        Some(ChildStep::Done(Err(refused)))
    );
    let mut call = ChildCall::new(false, None);
    call.next(ChildEvent::Spawned { pipes: true });
    assert_eq!(call.next(ChildEvent::ReaderFailed("no thread".into())), Some(ChildStep::Kill));
    let mut call = ChildCall::new(true, None);
    let refused = CallError::Failed("not found".into());
    assert_eq!(
        call.next(ChildEvent::NotSpawned("not found".into())),
        Some(ChildStep::Done(Err(refused)))
    );
}

/// A job the helper may already have run is never run again.
#[test]
fn only_a_job_the_helper_never_saw_is_retried() {
    assert_eq!(helper_outcome(false, HelperAnswer::NotWritten), None);
    assert_eq!(
        helper_outcome(false, HelperAnswer::Silent),
        Some(Err(CallError::NoAnswer))
    );
    assert_eq!(
        helper_outcome(true, HelperAnswer::NoReply("gone".into())),
        Some(Err(CallError::Failed("gone".into())))
    );
    let ran = HelperAnswer::Ran { exit: 124, payload: b"late".to_vec() };
    let reply = Reply { ok: false, stdout: Vec::new(), stderr: "late".into() };
    assert_eq!(helper_outcome(false, ran), Some(Ok(reply)));
}

#[test]
fn a_pane_is_focused_by_its_id() {
    assert_eq!(focus_pane_args("w1:p1"), vec!["agent", "focus", "w1:p1"]);
}

/// A call that was slow, or gave no reply, is logged louder than one that
/// answered, however it answered.
#[test]
fn a_slow_or_unanswered_call_is_logged_at_info() {
    let answered = |ok| Ok(Reply { ok, stdout: Vec::new(), stderr: String::new() });
    assert_eq!(call_level(&answered(true), 0), CallLevel::Debug);
    assert_eq!(call_level(&answered(false), SLOW_CALL - 1), CallLevel::Debug);
    assert_eq!(call_level(&answered(true), SLOW_CALL), CallLevel::Info);
    assert_eq!(call_level(&Err(CallError::NoAnswer), 0), CallLevel::Info);
    let args = vec!["agent".to_string(), "list".to_string()];
    let line = |call| call_line("Native", &args, Transport::Spawn, &call, "1.2ms");
    assert_eq!(line(answered(true)), "herdr (Native): `agent list` over Spawn answered after 1.2ms");
    assert_eq!(line(answered(false)), "herdr (Native): `agent list` over Spawn failed after 1.2ms");
    assert_eq!(
        line(Err(CallError::NoAnswer)),
        "herdr (Native): `agent list` over Spawn got no answer after 1.2ms"
    );
    let failed = Err(CallError::Failed("no".to_string()));
    assert_eq!(
        call_line("Wsl(\"a\")", &args, Transport::Helper, &failed, "2.0s"),
        "herdr (Wsl(\"a\")): `agent list` over Helper could not run after 2.0s"
    );
}

/// An answer may be spelled as the list of its values.
#[test]
fn an_answer_spelled_in_order_is_read() {
    assert_eq!(decode_answer("[{},null]"), Ok(()));
    assert_eq!(decode_answer(r#"[null,["no such pane"]]"#), Err("no such pane".to_string()));
    assert_eq!(decode_answer("[{}]"), Err("[{}]".to_string()));
}

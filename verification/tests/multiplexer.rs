use alacritree::herdr::host::{Herdr, HerdrConfig};
use alacritree::herdr::model::{AttachMode, PROGRAM};
use alacritree::herdr::view::FollowFocus;
use alacritree::multiplexer::model::{
    AttachFocus, AttachRequest, CreateRequest, CreatedPane, Launch, Managed, MultiplexerKind,
    PaneStatus, PaneTarget,
};
use alacritree::multiplexer::scripted::{Scripted, StateTone};
use alacritree::multiplexer::set::{Multiplexer, Multiplexers, PaneError, Zellij};
use alacritree::side::{exec_invocation, sh_quote, Platform, Side};

/// A side has two spellings and they are not interchangeable: `label` is a
/// row's word for it and stays silent on the native side, while a client that
/// cannot see the row needs the side named every time.
#[test]
fn a_side_names_itself_on_both_sides_of_the_wire() {
    assert_eq!(Side::Native.name(), "native");
    assert_eq!(Side::Wsl("Ubuntu-24.04".into()).name(), "wsl:Ubuntu-24.04");
}

/// A client names a pane by the side it read out of a listing, so a side that
/// does not survive the round trip points an attach at the wrong server.
#[test]
fn a_side_reads_back_as_the_side_it_spelled() {
    for side in [Side::Native, Side::Wsl("Ubuntu-24.04".into())] {
        assert_eq!(Side::parse(&side.name()), Some(side));
    }
}

#[test]
fn a_side_that_names_no_server_is_refused() {
    for name in ["", "wsl", "wsl:", "Native", "tmux:0"] {
        assert_eq!(Side::parse(name), None, "{name} named a server");
    }
}

#[test]
fn multiplexer_native_runs_herdr_directly() {
    let (program, args) = Side::Native.command(PROGRAM, &["agent", "list"]);
    assert_eq!(program, "herdr");
    assert_eq!(args, vec!["agent", "list"]);
}

/// herdr installs to ~/.local/bin, which reaches PATH only under a login shell.
#[test]
fn multiplexer_wsl_wraps_in_a_login_shell() {
    let (program, args) = Side::Wsl("kali-linux".into()).command(PROGRAM, &["agent", "list"]);
    assert_eq!(program, "wsl.exe");
    assert_eq!(args, vec!["-d", "kali-linux", "--exec", "sh", "-lc", "herdr agent list"]);
}

#[test]
fn multiplexer_wsl_quotes_arguments_that_need_it() {
    let (_, args) = Side::Wsl("d".into()).command(PROGRAM, &["agent", "attach", "w1:p1"]);
    assert_eq!(args.last().unwrap(), "herdr agent attach 'w1:p1'");
}

/// A client reads a multiplexer's name off a reply and may send it back, so the
/// two spellings have to agree.
#[test]
fn a_multiplexer_reads_back_as_the_name_it_spelled() {
    assert_eq!(MultiplexerKind::Herdr.name(), "herdr");
    let all = [MultiplexerKind::Herdr, MultiplexerKind::Zellij, MultiplexerKind::Scripted];
    for multiplexer in all {
        assert_eq!(MultiplexerKind::parse(multiplexer.name()), Some(multiplexer));
    }
}

/// The set an untouched config makes: herdr on, zellij off.
fn shipped() -> Multiplexers {
    let config = HerdrConfig {
        enabled: true,
        show_panes: false,
        show_unmatched: false,
        attach: AttachMode::Agent,
        follow_focus: FollowFocus::Herdr,
    };
    let herdr = Herdr::new(config, Platform::Unix, 0);
    let zellij =
        Zellij { enabled: false, show_unmatched: false, generation: 0, sides: Vec::new() };
    Multiplexers::new(herdr, zellij)
}

/// The script of a set that has one.
fn script(all: &mut Multiplexers) -> &mut Scripted {
    all.script();
    match all.get_mut(MultiplexerKind::Scripted) {
        Multiplexer::Scripted(scripted) => scripted,
        _ => panic!("a set asked for its script has one"),
    }
}

/// Each multiplexer that fronts a server is built once, so every kind a user
/// can name resolves to one, in the order the kinds are declared.
#[test]
fn every_real_kind_has_a_multiplexer() {
    let all = shipped();
    let built: Vec<MultiplexerKind> = all.list.iter().map(Multiplexer::kind).collect();
    assert_eq!(built, MultiplexerKind::served());
}

/// A call on the set reaches the backend it holds: the scripted one answers
/// what its script says.
#[test]
fn a_call_on_the_enum_reaches_the_backend_it_holds() {
    let mut all = shipped();
    let scripted = script(&mut all);
    scripted.enabled = true;
    scripted.direct = true;
    scripted.set_panes(&Side::Native, vec![Scripted::pane("t1")], 0);
    let multiplexer = all.get(MultiplexerKind::Scripted);
    assert!(multiplexer.enabled());
    let Multiplexer::Scripted(scripted) = multiplexer else { panic!("the kind asked for") };
    let target =
        PaneTarget { side: Side::Native, pane_id: "p:t1".into(), tab_id: None, has_agent: false };
    assert!(scripted.open_directly(&target).is_some());
    assert_eq!(multiplexer.pane_count(), 1);
    assert!(!all.get(MultiplexerKind::Zellij).enabled(), "zellij ships disabled");
}

/// The scripted kind is not something a config enables or a request reaches.
#[test]
fn the_scripted_kind_is_reachable_only_by_asking_for_it() {
    let mut all = shipped();
    assert!(!MultiplexerKind::served().contains(&MultiplexerKind::Scripted));
    assert_eq!(all.len(), MultiplexerKind::served().len());
    assert_eq!(
        all.requested(Some("scripted")).unwrap_err().message(),
        "`scripted` is not a multiplexer, expected `herdr` or `zellij`"
    );
    assert!(!all.disabled_reason().contains("scripted"));

    script(&mut all).enabled = true;
    assert_eq!(all.len(), MultiplexerKind::served().len() + 1);
    assert!(all.get(MultiplexerKind::Scripted).enabled());
}

#[test]
fn a_request_names_a_multiplexer_that_is_on() {
    let all = shipped();
    assert_eq!(all.requested(None), Ok(None));
    assert_eq!(all.requested(Some("herdr")), Ok(Some(MultiplexerKind::Herdr)));
    let refused = all.requested(Some("zellij")).unwrap_err();
    assert_eq!(refused, PaneError::Disabled(MultiplexerKind::Zellij));
    assert_eq!(refused.message(), "`zellij` is disabled");
    assert!(all.any_enabled());
    assert_eq!(all.default_enabled().map(Multiplexer::kind), Some(MultiplexerKind::Herdr));
    let mut none = shipped();
    if let Multiplexer::Herdr(herdr) = &mut none.list[0] {
        herdr.config.enabled = false;
    }
    assert_eq!(none.requested(None), Err(PaneError::AllDisabled));
    assert_eq!(PaneError::AllDisabled.message(), none.disabled_reason());
}

#[test]
fn a_pane_is_located_in_the_multiplexer_that_lists_it() {
    let mut all = shipped();
    let scripted = script(&mut all);
    scripted.enabled = true;
    scripted.set_panes(&Side::Native, vec![Scripted::pane("t1"), Scripted::pane("t2")], 0);
    let key = Scripted::key(&Side::Native, "t2");
    let found = all.locate(None, &Side::Native, "t2").map(|(key, _)| key);
    assert_eq!(found, Some(key.clone()));
    assert!(all.locate(Some(MultiplexerKind::Herdr), &Side::Native, "t2").is_none());
    assert_eq!(all.pane_index(&key), Some(1));
    assert_eq!(all.find(&key).map(|p| p.pane_id.as_str()), Some("p:t2"));
    assert!(all.session_closed(1, Some(&key)).is_empty());
}

#[test]
fn a_script_answers_in_order() {
    let mut scripted = Scripted::new();
    let key = Scripted::key(&Side::Native, "t1");
    let target =
        PaneTarget { side: Side::Native, pane_id: "p:t1".into(), tab_id: None, has_agent: true };
    let ask = |waiters| AttachRequest {
        workspace: None,
        previous: None,
        waiters,
        focus: AttachFocus::Take,
    };
    scripted.queue_attach(key.clone(), target.clone(), ask(vec![1]));
    scripted.queue_attach(key.clone(), target, ask(vec![2]));
    assert_eq!(scripted.attach_queue.len(), 1);
    assert!(scripted.poll_attach().0.is_none());
    scripted.attach_answers.push(Ok(Launch { program: "x".into(), argv: vec![] }));
    let answer = scripted.poll_attach().0.expect("an answer");
    assert_eq!(answer.request.waiters, vec![1, 2]);

    let ask = CreateRequest { workspace: None, waiter: None, focus: AttachFocus::Take };
    scripted.queue_create(Side::Native, None, ask);
    let made = CreatedPane { terminal_id: "t9".into(), pane_id: "p9".into() };
    scripted.create_answers.push(Ok(made));
    let answer = scripted.poll_create().expect("an answer");
    assert_eq!(answer.pane.map(|p| p.pane_id), Ok("p9".to_string()));

    scripted.follow = Some(key.clone());
    assert_eq!(scripted.sync_view().0, Some(key));
    assert_eq!(scripted.sync_view().0, None);
    let key = Scripted::key(&Side::Native, "t1");
    scripted.view_attached(4, &key);
    scripted.view_refused(&key);
    assert_eq!((scripted.attached.len(), scripted.refused.len()), (1, 1));
    assert!(!scripted.attaches_directly());
    scripted.session_closed(4, None);
    assert_eq!(scripted.closed, vec![(4, None)]);
}

#[test]
fn a_departed_pane_is_retained_and_dated() {
    let mut scripted = Scripted::new();
    scripted.set_panes(&Side::Native, vec![Scripted::pane("t1")], 10);
    assert_eq!(scripted.gone_since(&Side::Native, "t1", 0), None);
    scripted.set_panes(&Side::Native, vec![], 20);
    assert_eq!(scripted.gone_since(&Side::Native, "t1", 0), Some(20));
    assert_eq!(scripted.gone_since(&Side::Native, "t1", 20), None);
    assert!(scripted.find(&Side::Native, "t1").is_none());
    assert_eq!(scripted.mark(PaneStatus::Working).tone, StateTone::Working);
}

#[test]
fn a_row_names_its_pane() {
    let managed = |kind: Option<&str>, title: Option<&str>| Managed {
        multiplexer: MultiplexerKind::Herdr,
        detach: None,
        shared_view: false,
        kind: kind.map(str::to_string),
        title: title.map(str::to_string),
        status: None,
    };
    let name = |kind, title| managed(kind, title).pane_name();
    assert_eq!(name(Some("codex"), Some("main")), Some("`codex` \"main\"".to_string()));
    assert_eq!(name(Some("codex"), None), Some("`codex`".to_string()));
    assert_eq!(name(None, Some("main")), Some("\"main\"".to_string()));
    assert_eq!(name(None, None), None);
}

#[test]
fn an_attach_takes_focus_when_either_request_does() {
    assert_eq!(AttachFocus::requested(true), AttachFocus::Leave);
    assert!(AttachFocus::requested(false).takes());
    let ask = |focus, waiter| AttachRequest {
        workspace: Some("/a".into()),
        previous: None,
        waiters: vec![waiter],
        focus,
    };
    let mut first = ask(AttachFocus::Leave, 1);
    first.merge(ask(AttachFocus::Take, 2));
    assert_eq!((first.waiters, first.focus), (vec![1, 2], AttachFocus::Take));
}

#[test]
fn a_status_word_is_read_and_labelled() {
    assert_eq!(PaneStatus::parse("working"), PaneStatus::Working);
    assert_eq!(PaneStatus::parse("meditating"), PaneStatus::Unknown);
    assert_eq!(PaneStatus::default(), PaneStatus::Unknown);
}

#[test]
fn a_quoted_argument_is_one_word_to_a_shell() {
    assert_eq!(sh_quote("plain-1./_"), "plain-1./_");
    assert_eq!(sh_quote("a b"), "'a b'");
    assert_eq!(sh_quote("it's"), r"'it'\''s'");
    assert_eq!(sh_quote(""), "''");
    assert_eq!(Side::Wsl("d".into()).label(), Some("wsl:d".to_string()));
    assert_eq!(Side::Native.label(), None);
    let (program, args) = exec_invocation("d", &["sh", "-c", "x"]);
    assert_eq!(program, "wsl.exe");
    assert_eq!(args, vec!["-d", "d", "--exec", "sh", "-c", "x"]);
}

/// A script that was just added lists nothing and has nothing queued.
#[test]
fn an_added_script_is_blank() {
    let mut all = shipped();
    let scripted = script(&mut all);
    assert!(!scripted.enabled && !scripted.direct && !scripted.show_unmatched);
    assert!(scripted.sides.is_empty() && scripted.dropped.is_empty() && scripted.gone.is_empty());
    assert!(scripted.attach_queue.is_empty() && scripted.create_queue.is_empty());
    assert!(scripted.attach_answers.is_empty() && scripted.create_answers.is_empty());
    assert!(scripted.closed.is_empty() && scripted.attached.is_empty());
}

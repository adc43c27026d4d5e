use alacritree::herdr::host::{
    open_multiplexer_session, Herdr, HerdrConfig, HerdrViewFocus, ViewSync, CLOSED_BEFORE_ATTACH,
};
use alacritree::herdr::model::{focus_target_args, pane_key, AttachMode, Listing, Settings};
use alacritree::herdr::poll::{EndpointCache, Landed, ListingReply, Read};
use alacritree::herdr::view::FollowFocus;
use alacritree::multiplexer::model::{
    AttachFocus, AttachRequest, CreateRequest, CreatedPane, Launch, Pane, PaneStatus, PaneTarget,
};
use alacritree::side::{Platform, Side};

/// A time everything here happens around, in nanoseconds.
const NOW: u64 = 1_000_000_000_000;

fn on(platform: Platform, attach: AttachMode) -> Herdr {
    let config = HerdrConfig {
        enabled: true,
        show_panes: false,
        show_unmatched: false,
        attach,
        follow_focus: FollowFocus::Herdr,
    };
    Herdr::new(config, platform, NOW)
}

fn herdr(attach: AttachMode) -> Herdr {
    on(Platform::Unix, attach)
}

fn pane(side: Side, has_agent: bool) -> PaneTarget {
    PaneTarget { side, pane_id: "w1:p1".into(), tab_id: Some("w1:t1".into()), has_agent }
}

fn request(waiters: Vec<u64>) -> AttachRequest {
    AttachRequest { workspace: None, previous: None, waiters, focus: AttachFocus::Take }
}

fn titled_agent(kind: Option<&str>, title: Option<&str>) -> Pane {
    Pane {
        terminal_id: "t1".into(),
        pane_id: "w1:p1".into(),
        tab_id: Some("w1:t1".into()),
        kind: kind.map(str::to_string),
        title: title.map(str::to_string),
        status: Some(PaneStatus::Idle),
        focused: false,
        cwd: Some("/repo".into()),
        foreground_cwd: None,
    }
}

/// A pane with an agent on a side that can hand one over opens directly, and
/// the same pane with no agent does not.
#[test]
fn host_a_pane_with_no_agent_is_never_opened_directly() {
    let herdr = herdr(AttachMode::Agent);
    let wsl = Side::Wsl("d".into());
    let launch = herdr
        .open_directly(&pane(wsl.clone(), true), "herdr")
        .expect("a WSL pane with an agent hands the pane over");
    assert!(
        launch.argv.last().is_some_and(|script| script.ends_with("agent attach 'w1:p1'")),
        "{launch:?} does not attach the pane",
    );
    assert_eq!(herdr.open_directly(&pane(wsl, false), "herdr"), None);
}

/// A title saying no more than the kind is dropped, so the row names the
/// agent once rather than twice.
#[test]
fn a_title_repeating_the_kind_is_not_reported() {
    let herdr = herdr(AttachMode::Agent);
    let repeated = titled_agent(Some("codex"), Some("codex"));
    assert_eq!(herdr.managed(&Side::Native, Some(&repeated)).title, None);

    let distinct = titled_agent(Some("codex"), Some("primary"));
    assert_eq!(herdr.managed(&Side::Native, Some(&distinct)).title.as_deref(), Some("primary"));
}

/// A row shares herdr's view wherever a direct attach is impossible, and on
/// Windows a native pane is exactly that case.
#[test]
fn a_row_shares_the_view_wherever_a_pane_cannot_be_handed_over() {
    let agent = titled_agent(None, None);
    for (platform, shares) in [(Platform::Windows, true), (Platform::Unix, false)] {
        let herdr = on(platform, AttachMode::Agent);
        let native = herdr.managed(&Side::Native, Some(&agent));
        assert_eq!(native.shared_view, shares);

        let wsl = herdr.managed(&Side::Wsl("d".into()), Some(&agent));
        assert!(!wsl.shared_view);
    }
}

/// The configured attach mode outranks capability in one direction only.
#[test]
fn host_asking_for_a_shared_view_never_opens_a_pane_directly() {
    let herdr = herdr(AttachMode::Session);
    for side in [Side::Native, Side::Wsl("d".into())] {
        let target = pane(side, true);
        assert_eq!(
            herdr.open_directly(&target, "herdr"),
            None,
            "{target:?} was handed over unasked"
        );
    }
}

#[test]
fn closing_a_session_answers_only_its_own_queued_attach() {
    let mut herdr = herdr(AttachMode::Agent);
    let first_id = 1;
    let first = pane_key(Side::Native, "first".into());
    let second = pane_key(Side::Native, "second".into());
    let target = |id: &str| PaneTarget {
        side: Side::Native,
        pane_id: id.into(),
        tab_id: None,
        has_agent: true,
    };
    herdr.queue_attach(first.clone(), target("w1:p1"), request(vec![10]), NOW);
    herdr.queue_attach(second.clone(), target("w1:p2"), request(vec![20]), NOW);
    herdr.view_focus = Some(HerdrViewFocus { session: first_id, key: first.clone() });

    let told = herdr.session_closed(first_id, Some(&first));

    assert!(herdr.view_focus.is_none());
    assert_eq!(herdr.pending_attach.len(), 1);
    assert_eq!(herdr.pending_attach[0].key, second);
    assert_eq!(told, vec![10]);
    assert_eq!(
        CLOSED_BEFORE_ATTACH,
        "the session behind this pane was closed before the attach finished"
    );
}

/// Coming back to a created pane's session has to find its tab through the
/// side's full listing.
#[test]
fn a_bound_shell_pane_is_refocused_through_its_tab() {
    let mut herdr = herdr(AttachMode::Agent);
    assert!(!herdr.config.show_panes, "the default display");
    let side = Side::Native;
    let reply = ListingReply::parse(
        r#"{"result":{"panes":[
            {"terminal_id":"term-shell","pane_id":"w1:p2","tab_id":"w1:t2","agent_status":"unknown"}
        ]}}"#,
        Listing::Panes,
        NOW,
        true,
    );
    herdr.endpoints.caches[0].adopt_reply(reply, Listing::Agents, true);
    let key = pane_key(side, "term-shell".into());
    assert!(herdr.find(&key.side, &key.terminal_id).is_none(), "the listing shows the shell");

    let target = herdr.focus_target(&key).expect("a bound shell pane has nowhere to focus");

    assert_eq!(focus_target_args(&target), ["tab", "focus", "w1:t2"]);
}

/// A session still held open after herdr stopped listing its pane has no state
/// and no name left to report, but the user still has to know how to leave it.
#[test]
fn an_unlisted_pane_keeps_its_way_out() {
    let side = Side::Wsl("d".into());
    let mut herdr = herdr(AttachMode::Agent);
    let mut cache = EndpointCache::new(side.clone(), NOW);
    cache.settings =
        Read::Done(Settings { detach: Some("Ctrl+B q".into()), ..Settings::default() });
    herdr.endpoints.caches.push(cache);
    let managed = herdr.managed(&side, None);
    assert_eq!(managed.detach.as_deref(), Some("Ctrl+B q"));
    assert_eq!((managed.status, managed.kind, managed.title), (None, None, None));
}

#[test]
fn multiplexer_a_pane_with_no_agent_is_never_opened_directly() {
    let wsl = Side::Wsl("d".into());
    let open = |target: &PaneTarget, mode| {
        open_multiplexer_session(target, mode, Platform::Unix, "herdr")
    };
    let launch = open(&pane(wsl.clone(), true), AttachMode::Agent)
        .expect("a WSL pane with an agent hands the pane over");
    assert!(
        launch.argv.last().is_some_and(|script| script.ends_with("agent attach 'w1:p1'")),
        "{launch:?} does not attach the pane",
    );
    assert_eq!(open(&pane(wsl, false), AttachMode::Agent), None);
}

#[test]
fn multiplexer_asking_for_a_shared_view_never_opens_a_pane_directly() {
    for side in [Side::Native, Side::Wsl("d".into())] {
        let target = pane(side, true);
        let opened =
            open_multiplexer_session(&target, AttachMode::Session, Platform::Unix, "herdr");
        assert_eq!(opened, None, "{target:?} was handed over unasked");
    }
}

#[test]
fn a_pane_waits_in_line_once() {
    let mut herdr = herdr(AttachMode::Session);
    let key = pane_key(Side::Native, "t1".into());
    let leave = AttachRequest { focus: AttachFocus::Leave, ..request(vec![1]) };
    herdr.queue_attach(key.clone(), pane(Side::Native, true), leave, NOW);
    herdr.queue_attach(key.clone(), pane(Side::Native, true), request(vec![2]), NOW);
    assert_eq!(herdr.pending_attach.len(), 1);
    assert_eq!(herdr.pending_attach[0].request.waiters, vec![1, 2]);
    assert_eq!(herdr.pending_attach[0].request.focus, AttachFocus::Take);

    let first = herdr.poll_attach(Landed::Waiting, NOW);
    assert!(first.answer.is_none());
    let gesture = first.gesture.expect("the attach starts");
    assert_eq!(gesture.target, pane(Side::Native, true));
    assert_eq!(gesture.focus, Some(vec!["agent".into(), "focus".into(), "w1:p1".into()]));
    let launch = Launch { program: "herdr".into(), argv: vec![] };
    let done = herdr.poll_attach(Landed::Value(Ok(launch)), NOW);
    let answer = done.answer.expect("the attach is answered");
    assert_eq!(answer.key, key);
    assert_eq!(answer.request.waiters, vec![1, 2]);
    assert!(herdr.pending_attach.is_empty());
}

#[test]
fn a_created_pane_is_handed_to_whoever_asked() {
    let mut herdr = herdr(AttachMode::Agent);
    let ask = CreateRequest { workspace: None, waiter: Some(3), focus: AttachFocus::Leave };
    assert!(!herdr.queue_create(Side::Native, ask, NOW));
    assert!(herdr.poll_create(Landed::Waiting, NOW).is_none());
    let made = CreatedPane { terminal_id: "t9".into(), pane_id: "w1:p9".into() };
    let answer = herdr.poll_create(Landed::Value(Ok(made)), NOW).expect("an answer");
    assert_eq!(answer.request.waiter, Some(3));
    assert_eq!(answer.pane.map(|p| p.terminal_id), Ok("t9".to_string()));
    let ask = CreateRequest { workspace: None, waiter: None, focus: AttachFocus::Take };
    assert!(herdr.queue_create(Side::Native, ask, NOW));
    let answer = herdr.poll_create(Landed::Panicked, NOW).expect("an answer");
    assert_eq!(answer.pane, Err("the herdr pane create did not finish".to_string()));
}

#[test]
fn a_shared_view_asks_herdr_for_its_pane_then_waits() {
    let mut herdr = herdr(AttachMode::Session);
    let mut cache = EndpointCache::new(Side::Native, NOW);
    cache.agents = vec![titled_agent(Some("amp"), None)];
    cache.sampled_at = Some(NOW);
    herdr.endpoints.caches = vec![cache];
    let key = pane_key(Side::Native, "t1".into());
    let open = vec![1];
    let sync = |focus, now| ViewSync {
        active: Some((1, Some(&key), true)),
        attentive: true,
        open: &open,
        focus,
        now,
    };
    let step = herdr.sync_view(sync(Landed::Waiting, NOW));
    let (side, args) = step.focus.expect("herdr is asked for the pane");
    assert_eq!(side, Side::Native);
    assert_eq!(args, vec!["agent", "focus", "w1:p1"]);
    assert!(herdr.view_focus.is_some());
    let step = herdr.sync_view(sync(Landed::Waiting, NOW + 1));
    assert!(step.focus.is_none() && step.follow.is_none());
    let step = herdr.sync_view(sync(Landed::Value(Ok(())), NOW + 2));
    assert!(step.repaint);
    assert!(herdr.view_focus.is_none());
    assert!(herdr.sync_view(sync(Landed::Waiting, NOW + 3)).focus.is_none());
}

#[test]
fn an_index_points_at_its_pane() {
    let mut herdr = herdr(AttachMode::Agent);
    let named = |id: &str| Pane { terminal_id: id.into(), ..titled_agent(None, None) };
    herdr.endpoints.caches[0].agents = vec![named("a"), named("b")];
    let mut wsl = EndpointCache::new(Side::Wsl("d".into()), NOW);
    wsl.agents = vec![named("a")];
    herdr.endpoints.caches.push(wsl);
    assert_eq!(herdr.pane_count(), 3);
    assert_eq!(herdr.pane_index(&Side::Wsl("d".into()), "a"), Some(2));
    assert_eq!(herdr.pane_index(&Side::Native, "c"), None);
    assert_eq!(herdr.panes()[1].1.terminal_id, "b");
    let missing = vec![None, None, None];
    assert!(herdr.listed(&vec![], &vec![], &missing).is_empty());
    let json = herdr.pane_json(&Side::Native, "a", herdr.find(&Side::Native, "a"));
    assert_eq!(
        json.line(),
        r#"{"name":"herdr","pane_id":"w1:p1","session":null,"side":"native","tab_id":"w1:t1","terminal_id":"a"}"#
    );
}

#[test]
fn a_create_with_no_side_lands_on_the_one_that_answers() {
    let mut herdr = herdr(AttachMode::Agent);
    assert!(herdr.default_side().is_err());
    herdr.endpoints.caches[0].sampled_at = Some(NOW);
    assert_eq!(herdr.default_side(), Ok(Side::Native));
}

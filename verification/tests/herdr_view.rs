use alacritree::herdr::model::{AttachMode, HerdrKey, Listing};
use alacritree::herdr::poll::EndpointCache;
use alacritree::herdr::view::{
    needs_view_focus, FollowFocus, HerdrViewAction, HerdrViewSync, SessionId, ViewInputs,
};
use alacritree::multiplexer::model::Pane;
use alacritree::side::{Platform, Side};

/// A time everything here happens around, in nanoseconds.
const NOW: u64 = 1_000_000_000_000;

/// An endpoint holding one listing at a chosen sample time.
fn listed(side: Side, agents: Vec<Pane>, sampled_at: u64) -> EndpointCache {
    let mut cache = EndpointCache::new(side, sampled_at);
    cache.agents = agents;
    cache.sampled_at = Some(sampled_at);
    cache
}

fn inputs<'a>(
    active: Option<(SessionId, Option<&'a HerdrKey>, bool)>,
    attach: AttachMode,
    caches: &'a Vec<EndpointCache>,
    busy: bool,
) -> ViewInputs<'a> {
    ViewInputs {
        active,
        attach,
        follow: FollowFocus::Herdr,
        caches,
        attentive: true,
        busy,
        platform: Platform::Unix,
    }
}

fn always<'a>(
    active: Option<(SessionId, Option<&'a HerdrKey>, bool)>,
    caches: &'a Vec<EndpointCache>,
) -> ViewInputs<'a> {
    ViewInputs {
        active,
        attach: AttachMode::Session,
        follow: FollowFocus::Always,
        caches,
        attentive: true,
        busy: false,
        platform: Platform::Unix,
    }
}

fn one_focused(side: &Side, terminal_id: &str, at: u64) -> Vec<EndpointCache> {
    let panes = Listing::Panes.parse(&format!(
        r#"{{"result":{{"panes":[
            {{"terminal_id":"{terminal_id}","pane_id":"w1:p1","tab_id":"w1:t1","focused":true}}
        ]}}}}"#
    ));
    vec![listed(side.clone(), panes, at)]
}

/// Starting alacritree must never yank the user somewhere, so the first
/// reading of a side is a baseline rather than a change.
#[test]
fn a_first_sight_records_without_following() {
    let side = Side::Native;
    let now = NOW;
    let caches = one_focused(&side, "t1", now);
    let mut sync = HerdrViewSync::new();
    assert_eq!(sync.next(always(Some((1, None, false)), &caches)), None);
}

#[test]
fn a_native_session_follows_a_change_on_any_side() {
    let side = Side::Wsl("ubuntu".into());
    let start = NOW;
    let first = one_focused(&side, "t1", start);
    let mut sync = HerdrViewSync::new();
    assert_eq!(sync.next(always(Some((1, None, false)), &first)), None);
    let later = start + 1;
    let second = one_focused(&side, "t2", later);
    assert_eq!(
        sync.next(always(Some((1, None, false)), &second)),
        Some(HerdrViewAction::Follow(HerdrKey {
            side: side.clone(),
            terminal_id: "t2".into(),
        }))
    );
}

/// The default mode is what ships, and it must stay blind to a change
/// made while a native session is active.
#[test]
fn the_default_mode_ignores_the_trail() {
    let side = Side::Native;
    let start = NOW;
    let first = one_focused(&side, "t1", start);
    let mut sync = HerdrViewSync::new();
    let mut inputs = always(Some((1, None, false)), &first);
    inputs.follow = FollowFocus::Herdr;
    assert_eq!(sync.next(inputs), None);
    let later = start + 1;
    let second = one_focused(&side, "t2", later);
    let mut inputs = always(Some((1, None, false)), &second);
    inputs.follow = FollowFocus::Herdr;
    assert_eq!(sync.next(inputs), None);
}

/// A change the user is already looking at is not somewhere to go.
#[test]
fn a_change_onto_the_active_pane_records_without_following() {
    // A direct attach, so the shared-view path filters this session out
    // and leaves the active-pane question to the trail.
    let side = Side::Wsl("ubuntu".into());
    let key = HerdrKey { side: side.clone(), terminal_id: "t2".into() };
    let start = NOW;
    let first = one_focused(&side, "t1", start);
    let mut sync = HerdrViewSync::new();
    let mut first_inputs = always(Some((1, Some(&key), true)), &first);
    first_inputs.attach = AttachMode::Agent;
    assert_eq!(sync.next(first_inputs), None);
    let later = start + 1;
    let second = one_focused(&side, "t2", later);
    let mut second_inputs = always(Some((1, Some(&key), true)), &second);
    second_inputs.attach = AttachMode::Agent;
    assert_eq!(sync.next(second_inputs), None);
    // The active-pane branch must have updated the entry, not merely
    // skipped the edge: a third sample back on the old pane is a real
    // change against the recorded "t2", so it is followed.
    let latest = later + 1;
    let third = one_focused(&side, "t1", latest);
    let mut third_inputs = always(Some((1, Some(&key), true)), &third);
    third_inputs.attach = AttachMode::Agent;
    assert_eq!(
        sync.next(third_inputs),
        Some(HerdrViewAction::Follow(HerdrKey {
            side: side.clone(),
            terminal_id: "t1".into()
        }))
    );
}

/// A listing already in flight when alacritree moved herdr's focus
/// reports the old pane, and acting on it would run the change backwards.
#[test]
fn a_sample_older_than_the_stamp_forms_no_edge() {
    let side = Side::Native;
    let start = NOW;
    let mut sync = HerdrViewSync::new();
    let first = one_focused(&side, "t1", start);
    assert_eq!(sync.next(always(Some((1, None, false)), &first)), None);
    let moved = start + 5;
    sync.moved_focus(&HerdrKey { side: side.clone(), terminal_id: "t3".into() }, moved);
    let in_flight = one_focused(&side, "t2", start + 2);
    assert_eq!(sync.next(always(Some((1, None, false)), &in_flight)), None);
}

/// `attached` stamps the trail, so a pane it just opened is not mistaken
/// for a change herdr made once the user has moved on to something else.
#[test]
fn attached_stamps_the_trail_so_its_own_pane_is_not_a_change() {
    let side = Side::Wsl("ubuntu".into());
    let start = NOW;
    let mut sync = HerdrViewSync::new();
    let first = one_focused(&side, "t1", start);
    assert_eq!(sync.next(always(Some((1, None, false)), &first)), None);

    let attached_at = start + 1;
    let key = HerdrKey { side: side.clone(), terminal_id: "t2".into() };
    sync.attached(2, Some(&key), attached_at);

    // The active session has moved on by the time the poll confirms
    // herdr is on the pane the attach just opened.
    let later = attached_at + 1;
    let second = one_focused(&side, "t2", later);
    assert_eq!(sync.next(always(Some((3, None, false)), &second)), None);
}

/// A side that stops answering empties its listing, and a side whose
/// distro stopped loses its cache entirely; neither is a focus change.
#[test]
fn a_silent_or_vanished_side_forms_no_edge() {
    let side = Side::Wsl("ubuntu".into());
    let start = NOW;
    let first = one_focused(&side, "t1", start);
    let mut sync = HerdrViewSync::new();
    assert_eq!(sync.next(always(Some((1, None, false)), &first)), None);
    let later = start + 1;
    let silent = vec![listed(side.clone(), Vec::new(), later)];
    assert_eq!(sync.next(always(Some((1, None, false)), &silent)), None);
    let gone: Vec<EndpointCache> = Vec::new();
    assert_eq!(sync.next(always(Some((1, None, false)), &gone)), None);
    // The side comes back: its first reading is a baseline again, not the
    // change it looks like against the entry that used to be there.
    let back = one_focused(&side, "t9", later + 1);
    assert_eq!(sync.next(always(Some((1, None, false)), &back)), None);
}

/// Following acts on any reachable side, and a side nobody touched is
/// not a change.
#[test]
fn a_change_on_one_side_leaves_a_quiet_side_alone() {
    let native = Side::Native;
    let wsl = Side::Wsl("ubuntu".into());
    let start = NOW;
    let mut sync = HerdrViewSync::new();
    let mut first = one_focused(&native, "n1", start);
    first.extend(one_focused(&wsl, "w1", start));
    assert_eq!(sync.next(always(Some((1, None, false)), &first)), None);

    let later = start + 1;
    let mut second = one_focused(&native, "n1", later);
    second.extend(one_focused(&wsl, "w2", later));
    assert_eq!(
        sync.next(always(Some((1, None, false)), &second)),
        Some(HerdrViewAction::Follow(HerdrKey { side: wsl.clone(), terminal_id: "w2".into() })),
        "the side that moved is the one to go to"
    );
}

/// The shared-view path owns a session that shows herdr's view; the trail
/// speaks only when that path has nothing to say.
#[test]
fn the_shared_view_path_wins_over_the_trail() {
    let side = Side::Native;
    let key = HerdrKey { side: side.clone(), terminal_id: "t1".into() };
    let start = NOW;
    let caches = one_focused(&side, "t2", start);
    let mut sync = HerdrViewSync::new();
    assert_eq!(
        sync.next(always(Some((1, Some(&key), false)), &caches)),
        Some(HerdrViewAction::Focus(1))
    );
}

#[test]
fn herdr_shared_view_follows_new_tabs_and_refocuses_on_return() {
    let side = Side::Native;
    let t1 = HerdrKey { side: side.clone(), terminal_id: "t1".into() };
    let t2 = HerdrKey { side: side.clone(), terminal_id: "t2".into() };
    let panes = Listing::Panes.parse(
        r#"{"result":{"panes":[
            {"terminal_id":"t1","pane_id":"w1:p1","tab_id":"w1:t1","focused":false},
            {"terminal_id":"t2","pane_id":"w2:p1","tab_id":"w2:t1","focused":true}
        ]}}"#,
    );
    let mut sync = HerdrViewSync::new();
    let active = Some((1, Some(&t1), false));
    let no_caches: Vec<EndpointCache> = Vec::new();
    assert_eq!(
        sync.next(inputs(active, AttachMode::Session, &no_caches, false)),
        Some(HerdrViewAction::Focus(1))
    );
    let focused_at = NOW;
    sync.settled(1, true, focused_at);
    let caches = vec![listed(
        side.clone(),
        panes.clone(),
        focused_at + 1,
    )];
    assert_eq!(
        sync.next(inputs(active, AttachMode::Session, &caches, false)),
        Some(HerdrViewAction::Follow(t2.clone()))
    );
    sync.attached(2, None, focused_at + 2);
    assert_eq!(
        sync.next(inputs(Some((2, Some(&t2), false)), AttachMode::Session, &caches, false)),
        None
    );
    assert_eq!(sync.next(inputs(None, AttachMode::Session, &caches, false)), None);
    assert_eq!(
        sync.next(inputs(active, AttachMode::Session, &caches, false)),
        Some(HerdrViewAction::Focus(1))
    );
}

#[test]
fn herdr_shared_view_refocuses_after_an_ordinary_session() {
    let key = HerdrKey { side: Side::Native, terminal_id: "t1".into() };
    let mut sync = HerdrViewSync::new();
    sync.attached(1, None, NOW);
    let no_caches: Vec<EndpointCache> = Vec::new();
    assert_eq!(sync.next(inputs(None, AttachMode::Session, &no_caches, false)), None);
    assert_eq!(
        sync.next(inputs(Some((1, Some(&key), false)), AttachMode::Session, &no_caches, false)),
        Some(HerdrViewAction::Focus(1))
    );
}

#[test]
fn herdr_follow_attempts_wait_for_a_new_snapshot() {
    let side = Side::Native;
    let key = HerdrKey { side: side.clone(), terminal_id: "t1".into() };
    let panes = Listing::Panes.parse(
        r#"{"result":{"panes":[
            {"terminal_id":"t2","pane_id":"w2:p1","tab_id":"w2:t1","focused":true}
        ]}}"#,
    );
    let mut sync = HerdrViewSync::new();
    let focused_at = NOW;
    sync.attached(1, None, focused_at);
    let active = Some((1, Some(&key), false));
    let caches = vec![listed(
        side.clone(),
        panes.clone(),
        focused_at + 1,
    )];
    assert!(matches!(
        sync.next(inputs(active, AttachMode::Session, &caches, false)),
        Some(HerdrViewAction::Follow(_))
    ));
    assert_eq!(sync.next(inputs(active, AttachMode::Session, &caches, false)), None);
    let caches = vec![listed(
        side.clone(),
        panes.clone(),
        focused_at + 2,
    )];
    assert!(matches!(
        sync.next(inputs(active, AttachMode::Session, &caches, false)),
        Some(HerdrViewAction::Follow(_))
    ));
    sync.settled(1, false, focused_at + 3);
    let caches = vec![listed(
        side.clone(),
        panes.clone(),
        focused_at + 4,
    )];
    assert_eq!(sync.next(inputs(active, AttachMode::Session, &caches, false)), None);
}

#[test]
fn herdr_shared_view_rejects_stale_and_foreign_focus_snapshots() {
    let side = Side::Wsl("ubuntu".into());
    let other_side = Side::Wsl("debian".into());
    let key = HerdrKey { side: side.clone(), terminal_id: "t1".into() };
    let panes = Listing::Panes.parse(
        r#"{"result":{"panes":[
            {"terminal_id":"t2","pane_id":"w2:p1","tab_id":"w2:t1","focused":true}
        ]}}"#,
    );
    let mut sync = HerdrViewSync::new();
    let active = Some((1, Some(&key), false));
    let no_caches: Vec<EndpointCache> = Vec::new();
    let started = NOW;
    assert_eq!(
        sync.next(inputs(active, AttachMode::Agent, &no_caches, false)),
        Some(HerdrViewAction::Focus(1))
    );
    assert_eq!(sync.next(inputs(active, AttachMode::Agent, &no_caches, true)), None);
    let settled = started + 1;
    sync.settled(1, true, settled);
    let stale = vec![listed(side.clone(), panes.clone(), started)];
    assert_eq!(sync.next(inputs(active, AttachMode::Agent, &stale, false)), None);
    let fresh_at = settled + 1;
    let foreign =
        vec![listed(other_side.clone(), panes.clone(), fresh_at)];
    assert_eq!(sync.next(inputs(active, AttachMode::Agent, &foreign, false)), None);
    let fresh = vec![listed(side.clone(), panes.clone(), fresh_at)];
    assert_eq!(sync.next(inputs(active, AttachMode::Agent, &fresh, true)), None);
    assert_eq!(
        sync.next(inputs(Some((1, Some(&key), true)), AttachMode::Agent, &fresh, false)),
        None
    );
    assert_eq!(
        sync.next(inputs(active, AttachMode::Agent, &fresh, false)),
        Some(HerdrViewAction::Focus(1))
    );
}

#[test]
fn herdr_focus_completion_cannot_restore_a_view_left_while_pending() {
    let key = HerdrKey { side: Side::Native, terminal_id: "t1".into() };
    let active = Some((1, Some(&key), false));
    let mut sync = HerdrViewSync::new();
    let no_caches: Vec<EndpointCache> = Vec::new();
    assert_eq!(
        sync.next(inputs(active, AttachMode::Session, &no_caches, false)),
        Some(HerdrViewAction::Focus(1))
    );
    assert_eq!(sync.next(inputs(None, AttachMode::Session, &no_caches, true)), None);
    sync.settled(1, true, NOW);
    assert_eq!(
        sync.next(inputs(active, AttachMode::Session, &no_caches, false)),
        Some(HerdrViewAction::Focus(1))
    );
    sync.settled(1, false, NOW);
    assert_eq!(sync.next(inputs(active, AttachMode::Session, &no_caches, false)), None);
}

/// The setting governs whether herdr may move alacritree.  A shared view
/// still owes herdr a focus call, or it draws the wrong pane.
#[test]
fn off_still_asks_herdr_for_the_shared_view_pane() {
    let key = HerdrKey { side: Side::Native, terminal_id: "t1".into() };
    let caches: Vec<EndpointCache> = Vec::new();
    let mut sync = HerdrViewSync::new();
    let mut off = inputs(Some((1, Some(&key), false)), AttachMode::Session, &caches, false);
    off.follow = FollowFocus::Off;
    assert_eq!(sync.next(off), Some(HerdrViewAction::Focus(1)));
}

/// The shared-view path returns its follow on the same call, in every
/// mode that follows.
#[test]
fn a_shared_view_follows_herdr_in_every_mode() {
    for mode in [FollowFocus::Herdr, FollowFocus::Always] {
        let side = Side::Native;
        let t1 = HerdrKey { side: side.clone(), terminal_id: "t1".into() };
        let t2 = HerdrKey { side: side.clone(), terminal_id: "t2".into() };
        let panes = Listing::Panes.parse(
            r#"{"result":{"panes":[
                {"terminal_id":"t2","pane_id":"w2:p1","tab_id":"w2:t1","focused":true}
            ]}}"#,
        );
        let mut sync = HerdrViewSync::new();
        let focused_at = NOW;
        sync.attached(1, None, focused_at);
        let caches = vec![listed(
            side.clone(),
            panes.clone(),
            focused_at + 1,
        )];
        let mut at = inputs(Some((1, Some(&t1), false)), AttachMode::Session, &caches, false);
        at.follow = mode;
        assert_eq!(
            sync.next(at),
            Some(HerdrViewAction::Follow(t2.clone())),
            "mode {mode:?} delayed or dropped a shared-view follow"
        );
    }
}

/// `Off` suppresses the follow the shared-view path would otherwise
/// return, rather than deferring it to whenever the mode next changes.
#[test]
fn off_suppresses_a_shared_view_follow() {
    let side = Side::Native;
    let t1 = HerdrKey { side: side.clone(), terminal_id: "t1".into() };
    let panes = Listing::Panes.parse(
        r#"{"result":{"panes":[
            {"terminal_id":"t2","pane_id":"w2:p1","tab_id":"w2:t1","focused":true}
        ]}}"#,
    );
    let mut sync = HerdrViewSync::new();
    let focused_at = NOW;
    sync.attached(1, None, focused_at);
    let caches = vec![listed(
        side.clone(),
        panes.clone(),
        focused_at + 1,
    )];
    let mut off = inputs(Some((1, Some(&t1), false)), AttachMode::Session, &caches, false);
    off.follow = FollowFocus::Off;
    assert_eq!(sync.next(off), None);
}

/// A shared view shows whatever pane herdr has focused, so the one on
/// screen has to keep asking for its own.
#[test]
fn a_shared_view_asks_herdr_for_its_pane() {
    let key = HerdrKey { side: Side::Native, terminal_id: "t1".into() };
    assert!(needs_view_focus(Some(&key), AttachMode::Agent, true, 1, None, Platform::Windows));
    assert!(!needs_view_focus(Some(&key), AttachMode::Agent, true, 1, None, Platform::Unix));
}

/// A direct attach is wired to one pane, so herdr's focus decides nothing
/// about what it draws.
#[test]
fn a_direct_attach_never_asks_herdr_for_its_pane() {
    let key = HerdrKey { side: Side::Wsl("d".into()), terminal_id: "t1".into() };
    assert!(!needs_view_focus(Some(&key), AttachMode::Agent, true, 1, None, Platform::Unix));
    assert!(!needs_view_focus(None, AttachMode::Agent, true, 1, None, Platform::Unix));
}

/// The pane herdr was last pointed at is where it still is, and asking
/// again every frame would spawn a herdr per frame.
#[test]
fn a_shared_view_asks_once_per_switch() {
    let key = HerdrKey { side: Side::Native, terminal_id: "t1".into() };
    assert!(!needs_view_focus(Some(&key), AttachMode::Agent, true, 1, Some(1), Platform::Unix));
    assert!(needs_view_focus(Some(&key), AttachMode::Agent, true, 2, Some(1), Platform::Windows));
    assert!(!needs_view_focus(Some(&key), AttachMode::Agent, true, 2, Some(1), Platform::Unix));
}

/// A pane with no agent in it has no direct attach on any side, so its
/// session is a shared view and keeps asking for its own pane.
#[test]
fn an_agentless_pane_asks_herdr_for_its_pane_on_every_side() {
    let key = HerdrKey { side: Side::Wsl("d".into()), terminal_id: "t1".into() };
    assert!(needs_view_focus(Some(&key), AttachMode::Agent, false, 1, None, Platform::Unix));
}

#[test]
fn a_closed_session_leaves_the_view() {
    let key = HerdrKey { side: Side::Native, terminal_id: "t1".into() };
    let caches: Vec<EndpointCache> = Vec::new();
    let mut sync = HerdrViewSync::new();
    sync.attached(1, None, NOW);
    sync.closed(1);
    assert_eq!((sync.visible, sync.focused, sync.follow_after), (None, None, None));
    let active = Some((1, Some(&key), false));
    assert_eq!(
        sync.next(inputs(active, AttachMode::Session, &caches, false)),
        Some(HerdrViewAction::Focus(1))
    );
}

#[test]
fn a_window_nobody_looks_at_follows_nothing() {
    let side = Side::Wsl("ubuntu".into());
    let first = one_focused(&side, "t1", NOW);
    let mut sync = HerdrViewSync::new();
    assert_eq!(sync.next(always(Some((1, None, false)), &first)), None);
    let second = one_focused(&side, "t2", NOW + 1);
    let mut away = always(Some((1, None, false)), &second);
    away.attentive = false;
    assert_eq!(sync.next(away), None);
}

/// Two listings a nanosecond apart are two listings.
#[test]
fn a_listing_sampled_a_moment_later_is_followed() {
    let side = Side::Wsl("ubuntu".into());
    let first = one_focused(&side, "t1", NOW);
    let mut sync = HerdrViewSync::new();
    assert_eq!(sync.next(always(Some((1, None, false)), &first)), None);
    let same_moment = one_focused(&side, "t2", NOW);
    assert_eq!(sync.next(always(Some((1, None, false)), &same_moment)), None);
    let later = one_focused(&side, "t2", NOW + 1);
    assert_eq!(
        sync.next(always(Some((1, None, false)), &later)),
        Some(HerdrViewAction::Follow(HerdrKey { side, terminal_id: "t2".into() }))
    );
}

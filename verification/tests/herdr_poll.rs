use alacritree::herdr::endpoints::{Endpoints, DISTRO_REFRESH};
use alacritree::herdr::events::{Event, Message};
use alacritree::herdr::model::{Listing, PollError, Reach, Settings};
use alacritree::herdr::poll::{Action, EndpointCache, Inputs, Landed, Link, ListingReply, Read};
use alacritree::multiplexer::model::PaneStatus;
use alacritree::side::Side;

/// A time everything here happens around, in nanoseconds.
const NOW: u64 = 1_000_000_000_000;

/// One working agent, for the tests about what survives a poll that did not
/// answer.
const LISTING: &str = r#"{"result":{"panes":[
    {"terminal_id":"agent","pane_id":"w1:p1","agent":"amp","agent_status":"working"}
]}}"#;

const TWO_AGENTS: &str = r#"{"result":{"panes":[
    {"terminal_id":"a","pane_id":"w1:p1","agent":"amp","agent_status":"idle","focused":true},
    {"terminal_id":"b","pane_id":"w1:p2","agent":"codex","agent_status":"idle"}
]}}"#;

/// A poll that is told nothing.
fn nothing() -> Inputs {
    Inputs {
        link: Vec::new(),
        status: Vec::new(),
        listing: Landed::Waiting,
        settings: Landed::Waiting,
        session_name: Landed::Waiting,
    }
}

fn idle(cache: &mut EndpointCache, display: Listing, attached: bool) -> Vec<Action> {
    cache.poll(display, attached, nothing(), NOW)
}

/// A poll that the listing in flight lands on.
fn listing(
    cache: &mut EndpointCache,
    listing: Landed<Result<ListingReply, PollError>>,
    display: Listing,
    attached: bool,
) -> Vec<Action> {
    cache.poll(display, attached, Inputs { listing, ..nothing() }, NOW)
}

/// A poll on which the lifecycle stream said something.
fn link(cache: &mut EndpointCache, message: Message) -> Vec<Action> {
    cache.poll(Listing::Panes, true, Inputs { link: vec![message], ..nothing() }, NOW)
}

/// A poll on which the status stream said something.
fn status(cache: &mut EndpointCache, message: Message) -> Vec<Action> {
    cache.poll(Listing::Panes, true, Inputs { status: vec![message], ..nothing() }, NOW)
}

fn known(cache: &mut EndpointCache) {
    cache.settings = Read::Done(Settings::default());
    cache.session_name = Read::Done("fixture".into());
}

/// One listing driven to completion. A failure is one on a side that has been
/// failing long enough to have given its rows up.
fn complete(
    cache: &mut EndpointCache,
    result: Result<&str, PollError>,
    kind: Listing,
    display: Listing,
    sampled_at: u64,
) {
    if result.is_err() {
        cache.blank_at = Some(NOW);
    }
    known(cache);
    let reply = result.map(|stdout| ListingReply::parse(stdout, kind, sampled_at, true));
    cache.pending = true;
    cache.listed_for = Some((display, true));
    listing(cache, Landed::Value(reply), display, true);
}

/// One listing that did not answer, with what herdr last reported still held.
fn fail(cache: &mut EndpointCache, error: PollError) {
    known(cache);
    cache.pending = true;
    listing(cache, Landed::Value(Err(error)), Listing::Agents, true);
}

/// A side whose stream herdr accepted, holding the listing `json` taken with an
/// attached session, which is the listing that carries every pane.
fn live(json: &str) -> EndpointCache {
    let mut cache = EndpointCache::new(Side::Native, NOW);
    cache.link = Link::Connecting { failures: 0 };
    link(&mut cache, Message::Started);
    assert!(cache.pending, "an accepted stream lists the side");
    land(&mut cache, json);
    cache
}

/// Lands `json` as the reply to the listing in flight.
fn land(cache: &mut EndpointCache, json: &str) {
    known(cache);
    let reply = ListingReply::parse(json, Listing::Panes, NOW, true);
    cache.pending = true;
    listing(cache, Landed::Value(Ok(reply)), Listing::Panes, true);
}

fn send(cache: &mut EndpointCache, event: Event) {
    link(cache, Message::Event(event));
}

#[test]
fn attachment_metadata_survives_a_side_that_stopped_answering() {
    let mut cache = EndpointCache::new(Side::Native, NOW);
    known(&mut cache);
    let reply = ListingReply::parse(
        r#"{"result":{"agents":[{"terminal_id":"agent","pane_id":"w1:p1","agent":"amp","agent_status":"working","terminal_title_stripped":"review work"}]}}"#,
        Listing::Agents,
        NOW,
        false,
    );
    cache.pending = true;
    listing(&mut cache, Landed::Value(Ok(reply)), Listing::Agents, false);
    assert!(cache.attachment_panes.is_empty());
    assert_eq!(cache.agents()[0].title.as_deref(), Some("review work"));

    complete(
        &mut cache,
        Err(PollError::Absent("spawn_failed")),
        Listing::Panes,
        Listing::Agents,
        NOW,
    );

    let pane =
        cache.attachment_pane("agent").expect("the bound pane retains its known details");
    assert_eq!(pane.agent.title.as_deref(), Some("review work"));
    assert!(!pane.current);
    assert!(pane.agent.status.is_none());
    assert!(!pane.agent.focused);
}

/// A spawn that could not run is not evidence that the agents went away,
/// and the poll two seconds behind it usually answers.  Blanking on the
/// first failure is what a loaded machine shows: every status on the side
/// goes at once, and comes back a poll or two later.
#[test]
fn one_failed_listing_keeps_what_herdr_last_reported() {
    let mut cache = EndpointCache::new(Side::Native, NOW);
    complete(
        &mut cache,
        Ok(LISTING),
        Listing::Panes,
        Listing::Panes,
        NOW,
    );

    fail(&mut cache, PollError::Absent("spawn_failed"));

    assert_eq!(cache.agents().len(), 1);
    assert_eq!(cache.agents()[0].status, Some(PaneStatus::Working));
    let pane = cache.attachment_pane("agent").expect("the pane keeps its row");
    assert_eq!(pane.agent.status, Some(PaneStatus::Working));
    assert!(pane.current);
    // The listing and when it was taken are one fact, so a reader asking
    // whether the side is answering agrees with the rows still drawn.
    assert!(cache.sampled_at().is_some());
    // Membership is not held back: a failure may never remove a pane, and
    // holding the last listing as evidence would let it.
    assert!(cache.inventory().is_none());
}

/// A side that has stopped answering has to give its rows up in the end,
/// or a herdr that went down leaves a status nobody is refreshing on
/// screen for the rest of the session.
#[test]
fn listings_that_keep_failing_drop_what_they_knew() {
    let mut cache = EndpointCache::new(Side::Native, NOW);
    complete(
        &mut cache,
        Ok(LISTING),
        Listing::Panes,
        Listing::Panes,
        NOW,
    );
    fail(&mut cache, PollError::Absent("spawn_failed"));
    cache.blank_at = Some(NOW);

    fail(&mut cache, PollError::Absent("spawn_failed"));

    assert!(cache.agents().is_empty());
    assert!(cache.sampled_at().is_none());
    let pane = cache.attachment_pane("agent").expect("the bound pane keeps its row");
    assert!(pane.agent.status.is_none());
    assert!(!pane.current);
}

/// The run is measured from its first failure, so an answer in between
/// has to start the next run over rather than leaving the side one miss
/// away from blanking for the rest of the session.
#[test]
fn an_answer_between_failures_starts_the_grace_over() {
    let mut cache = EndpointCache::new(Side::Native, NOW);
    fail(&mut cache, PollError::Absent("spawn_failed"));
    cache.blank_at = Some(NOW);

    complete(
        &mut cache,
        Ok(LISTING),
        Listing::Panes,
        Listing::Panes,
        NOW,
    );
    fail(&mut cache, PollError::Absent("spawn_failed"));

    assert_eq!(cache.agents()[0].status, Some(PaneStatus::Working));
}

#[test]
fn poll_attachment_metadata_is_released_without_bindings() {
    let mut cache = EndpointCache::new(Side::Native, NOW);
    complete(
        &mut cache,
        Ok(r#"{"result":{"panes":[{"terminal_id":"shell","pane_id":"w1:p1"}]}}"#),
        Listing::Panes,
        Listing::Agents,
        NOW,
    );
    assert!(cache.attachment_pane("shell").is_some());
    idle(&mut cache, Listing::Agents, false);
    assert!(cache.attachment_pane("shell").is_none());
    assert!(!cache.pending);
}

#[test]
fn poll_inventory_adoption_keeps_the_request_timestamp_when_display_changes_in_flight() {
    let mut cache = EndpointCache::new(Side::Native, NOW);
    let started = NOW - 1_000_000_000;
    complete(
        &mut cache,
        Ok(r#"{"result":{"panes":[
        {"terminal_id":"shell","pane_id":"w1:p1"},
        {"terminal_id":"agent","pane_id":"w1:p2","agent":"codex","agent_status":"idle"}
    ]}}"#),
        Listing::Panes,
        Listing::Agents,
        started,
    );

    assert_eq!(cache.inventory().unwrap().sampled_at, started);
    assert_eq!(cache.inventory().unwrap().terminal_ids.len(), 2);
    assert_eq!(cache.agents()[0].terminal_id, "agent");
    assert_eq!(cache.agents().len(), 1);

    complete(
        &mut cache,
        Ok(r#"{"result":{"agents":[]}}"#),
        Listing::Agents,
        Listing::Panes,
        started,
    );
    assert!(cache.inventory().is_none());
}

#[test]
fn a_landed_listing_is_not_followed_by_another() {
    let mut cache = live(TWO_AGENTS);
    assert_eq!(cache.agents().len(), 2);
    idle(&mut cache, Listing::Panes, true);
    assert!(!cache.pending, "nothing changed, so nothing is listed");
}

/// The point of the stream: a status change reaches the row without
/// waiting on a listing.
#[test]
fn a_status_event_patches_the_row_without_a_listing() {
    let mut cache = live(TWO_AGENTS);
    let before = cache.generation();

    send(&mut cache, Event::Status {
        pane_id: "w1:p2".into(),
        status: PaneStatus::Working,
    });

    assert_eq!(cache.agents()[1].status, Some(PaneStatus::Working));
    assert_ne!(cache.generation(), before);
    assert!(!cache.pending);
}

#[test]
fn a_focus_event_moves_focus_within_the_side() {
    let mut cache = live(TWO_AGENTS);

    send(&mut cache, Event::Focused { pane_id: "w1:p2".into() });

    assert!(!cache.agents()[0].focused);
    assert!(cache.agents()[1].focused);
    assert!(!cache.attachment_pane("a").unwrap().agent.focused);
    assert!(cache.attachment_pane("b").unwrap().agent.focused);
}

/// Following herdr's focus only credits a sample newer than alacritree's
/// own last focus move, so a focus patch has to count as one or the
/// sidebar would wait for an unrelated listing to follow.
#[test]
fn a_focus_event_is_a_fresh_sample() {
    let mut cache = live(TWO_AGENTS);
    let listed = cache.sampled_at().unwrap();
        let event = Event::Focused { pane_id: "w1:p2".into() };
    let inputs = Inputs { link: vec![Message::Event(event)], ..nothing() };
    cache.poll(Listing::Panes, true, inputs, NOW + 2);

    assert!(cache.sampled_at().unwrap() > listed);
}

/// herdr streams no status a pane already had, so the gap between a
/// listing and a new status subscription's ack is closed by listing again.
#[test]
fn a_status_subscription_starting_lists_the_side_again() {
    let mut cache = live(TWO_AGENTS);
    status(&mut cache, Message::Started);

    assert!(cache.pending);
}

#[test]
fn a_pane_appearing_lists_the_side_again() {
    let mut cache = live(TWO_AGENTS);
    send(&mut cache, Event::Changed);
    assert!(cache.pending);
}

/// A listing in flight may have sampled herdr before the change it is
/// racing, so landing it must not undo a patch that arrived meanwhile.
#[test]
fn a_patch_during_a_listing_survives_it() {
    let mut cache = live(TWO_AGENTS);
    send(&mut cache, Event::Changed);
    send(&mut cache, Event::Status {
        pane_id: "w1:p1".into(),
        status: PaneStatus::Blocked,
    });

    land(&mut cache, TWO_AGENTS);

    assert_eq!(cache.agents()[0].status, Some(PaneStatus::Blocked));
}

/// A shell's title churns with every prompt, so an update for a pane the
/// side does not show must not cost a listing.
#[test]
fn an_update_for_a_hidden_pane_is_ignored() {
    let mut cache = live(TWO_AGENTS);
    let shell = Listing::Panes
        .parse(r#"{"result":{"panes":[{"terminal_id":"s","pane_id":"w1:p9","title":"~"}]}}"#);
    send(&mut cache, Event::Updated(shell[0].clone()));
    assert!(!cache.pending);
    assert_eq!(cache.agents().len(), 2);
}

#[test]
fn the_status_subscription_names_the_listed_agents() {
    let cache = live(TWO_AGENTS);
    let pane_ids = cache.status.as_ref().expect("agents are listed");
    assert_eq!(pane_ids, &["w1:p1".to_string(), "w1:p2".to_string()]);
}

/// herdr refusing a status subscription is remembered against the panes
/// it named, so the same refusal is not asked for every frame.
#[test]
fn a_refused_status_subscription_is_not_asked_for_again() {
    let mut cache = live(TWO_AGENTS);
    status(&mut cache, Message::Ended(Some(PollError::Absent("spawn_failed"))));
    assert!(cache.status.is_none(), "the subscription was refused");
    assert!(cache.status_refused.is_some());
    idle(&mut cache, Listing::Panes, true);
    assert!(cache.status.is_none());
}

/// herdr closing a stream it had accepted means herdr went away, and the
/// usual reason is a restart, so the side reconnects at once and keeps
/// its rows through the grace.
#[test]
fn a_closed_stream_reconnects_at_once_and_keeps_the_rows() {
    let mut cache = live(TWO_AGENTS);

    link(&mut cache, Message::Ended(None));

    assert!(
        matches!(cache.link, Link::Down { failures: 0, retry_at } if retry_at <= NOW)
    );
    assert_eq!(cache.agents().len(), 2);
    assert!(cache.inventory().is_none(), "membership is only ever read from a listing");
}

/// Starting herdr after alacritree is the ordinary order, so a side whose
/// herdr is not up yet is retried, on a backoff.
#[test]
fn a_server_not_yet_running_is_retried_on_a_backoff() {
    let mut cache = EndpointCache::new(Side::Native, NOW);
    cache.link = Link::Connecting { failures: 0 };

    link(&mut cache, Message::Ended(Some(PollError::Server("server_not_running".into()))));

    let Link::Down { failures, retry_at } = cache.link else { panic!("not down") };
    assert_eq!(failures, 1);
    assert!(retry_at > NOW);
}

#[test]
fn a_side_with_no_herdr_is_given_up_on() {
    let mut cache = EndpointCache::new(Side::Native, NOW);
    assert_eq!(idle(&mut cache, Listing::Agents, false), vec![Action::OpenLink]);
    link(&mut cache, Message::Ended(Some(PollError::Absent("spawn_failed"))));
    assert!(matches!(cache.link, Link::Abandoned));
}

/// A user reaching for a side that is waiting out its backoff is told
/// the truth now rather than five seconds from now.
#[test]
fn reaching_for_a_side_reconnects_it_now() {
    let mut cache = EndpointCache::new(Side::Native, NOW);
    cache.link = Link::Down { failures: 3, retry_at: NOW + 5_000_000_000 };
    cache.reconnect_now(NOW);
    assert!(matches!(cache.link, Link::Down { retry_at, .. } if retry_at <= NOW));
}

#[test]
fn a_failed_listing_on_a_live_side_is_retried() {
    let mut cache = live(TWO_AGENTS);
    send(&mut cache, Event::Changed);
    let failed = Err(PollError::Absent("spawn_failed"));
    listing(&mut cache, Landed::Value(failed), Listing::Panes, true);

    assert!(!cache.pending);
    assert!(cache.listing_due.is_some_and(|due| due > NOW));
    assert_eq!(cache.agents().len(), 2, "one failure sits inside the grace");
}

#[test]
fn failed_inventory_jobs_invalidate_success() {
    let mut cache = EndpointCache::new(Side::Native, NOW);
    complete(
        &mut cache,
        Ok(r#"{"result":{"panes":[]}}"#),
        Listing::Panes,
        Listing::Panes,
        NOW,
    );
    assert!(cache.inventory().is_some());
    cache.pending = true;
    listing(&mut cache, Landed::Panicked, Listing::Panes, true);

    assert!(cache.inventory().is_none());
    // One panicked listing sits inside the grace, so the listing it did
    // not replace still stands.
    assert!(cache.sampled_at().is_some());
    assert!(!cache.pending);
}

#[test]
fn poll_inventory_unchanged_frames_do_not_request_immediate_polls() {
    let mut cache = EndpointCache::new(Side::Native, NOW);
    let started = NOW;
    complete(
        &mut cache,
        Ok(r#"{"result":{"panes":[]}}"#),
        Listing::Panes,
        Listing::Panes,
        started,
    );
    for _ in 0..20 {
        idle(&mut cache, Listing::Panes, true);
        assert!(!cache.pending);
        assert_eq!(cache.inventory().unwrap().sampled_at, started);
    }
    idle(&mut cache, Listing::Panes, false);
    assert!(cache.inventory().is_none());
    assert!(!cache.pending);
}

#[test]
fn poll_pane_display_without_attachments_does_not_build_an_inventory() {
    let mut cache = EndpointCache::new(Side::Native, NOW);
    known(&mut cache);
    let reply = ListingReply::parse(
        r#"{"result":{"panes":[{"terminal_id":"shell","pane_id":"w1:p1"}]}}"#,
        Listing::Panes,
        NOW,
        false,
    );
    cache.pending = true;
    listing(&mut cache, Landed::Value(Ok(reply)), Listing::Panes, false);

    assert!(cache.inventory().is_none());
    assert_eq!(cache.agents()[0].terminal_id, "shell");
}

#[test]
fn poll_failed_distro_listing_invalidates_only_wsl_inventory_evidence() {
    let mut endpoints = Endpoints::new(NOW);
    endpoints.adopt_running(&vec!["ubuntu".into()], NOW);
    for cache in &mut endpoints.caches {
        complete(cache, Ok(r#"{"result":{"panes":[]}}"#), Listing::Panes, Listing::Panes, NOW);
    }

    endpoints.adopt_listing(None, NOW);

    assert!(endpoints.caches[0].inventory().is_some());
    assert!(endpoints.caches[1].inventory().is_none());
    endpoints.adopt_running(&vec![], NOW);
    assert_eq!(endpoints.caches.len(), 1);
}

#[test]
fn poll_unchanged_listings_advance_freshness_without_rebuilding_rows() {
    let mut cache = EndpointCache::new(Side::Native, NOW);
    known(&mut cache);
    let first = NOW - 2_000_000_000;
    let second = first + 1_000_000_000;
    let mut first_generation = None;
    for started in [first, second] {
        let reply = ListingReply::parse(
            r#"{"result":{"panes":[
                    {"terminal_id":"t2","pane_id":"w2:p1","tab_id":"w2:t1","focused":true}
                ]}}"#,
            Listing::Panes,
            started,
            true,
        );
        cache.pending = true;
        listing(&mut cache, Landed::Value(Ok(reply)), Listing::Panes, true);
        assert!(!cache.pending);
        assert_eq!(cache.sampled_at(), Some(started));
        assert_eq!(cache.agents()[0].terminal_id, "t2");
        assert!(cache.agents()[0].focused);
        if let Some(generation) = first_generation {
            assert_eq!(cache.generation(), generation);
        } else {
            first_generation = Some(cache.generation());
        }
    }
}

#[test]
fn poll_an_endpoint_with_no_herdr_is_given_up_on() {
    let mut reach = Reach::default();
    reach.record_failure(&PollError::Absent("spawn_failed"));
    assert!(reach.abandoned());
}

/// The common way to meet herdr is to start it after alacritree, and an
/// endpoint that has only ever answered "no server" has still proved a
/// herdr lives there.
#[test]
fn poll_a_server_that_starts_later_is_still_found() {
    let mut reach = Reach::default();
    reach.record_failure(&PollError::Server("server_not_running".into()));
    assert!(!reach.abandoned());
}

/// A herdr that stops answering in its own voice, then stops answering at
/// all, is a herdr that went away — the endpoint follows the newer
/// evidence rather than the first thing it saw.
#[test]
fn poll_a_side_that_loses_its_herdr_stops_being_polled() {
    let mut reach = Reach::default();
    reach.record_failure(&PollError::Server("server_not_running".into()));
    reach.record_failure(&PollError::Absent("herdr_unavailable"));
    assert!(reach.abandoned());
}

#[test]
fn poll_an_endpoint_is_abandoned_only_after_a_failure_it_never_answered() {
    let mut reach = Reach::default();
    assert!(!reach.abandoned());
    reach.record_success();
    reach.record_failure(&PollError::Absent("spawn_failed"));
    assert!(!reach.abandoned(), "a server that answered once is retried, not given up on");

    let mut never = Reach::default();
    never.record_failure(&PollError::Absent("spawn_failed"));
    assert!(never.abandoned());
}

/// A stopped distro cannot be running a server, and polling one boots its
/// VM, so the endpoint set follows the running distros rather than the
/// registered ones.
#[test]
fn poll_an_endpoint_follows_its_distro_starting_and_stopping() {
    let mut endpoints = Endpoints::new(NOW);
    assert_eq!(endpoints.caches().len(), 1);

    endpoints.adopt_running(&vec!["kali-linux".to_string()], NOW);
    let started = endpoints.generation();
    assert!(endpoints.caches().iter().any(|c| *c.side() == Side::Wsl("kali-linux".into())));

    endpoints.adopt_running(&vec!["kali-linux".to_string()], NOW);
    assert_eq!(endpoints.generation(), started, "an unchanged set is not a change");

    endpoints.adopt_running(&vec![], NOW);
    assert_eq!(endpoints.caches().len(), 1);
    assert_eq!(*endpoints.caches()[0].side(), Side::Native, "the native side is permanent");
    assert_ne!(endpoints.generation(), started, "the rows the endpoint carried are gone");
}

/// The endpoint an adoption removes carries its own generation away with
/// it, and a set change has to outweigh that however far the endpoint had
/// counted — `1`, what a cache holds after its first agent lands, most of
/// all.
#[test]
fn poll_removing_an_endpoint_that_landed_a_poll_is_still_observable() {
    let mut endpoints = Endpoints::new(NOW);
    endpoints.adopt_running(&vec!["kali-linux".to_string()], NOW);
    endpoints.caches[1].generation = 1;
    let with_agent = endpoints.generation();

    endpoints.adopt_running(&vec![], NOW);
    assert_ne!(endpoints.generation(), with_agent);
}

/// A listing that failed says nothing about what is running, so it must
/// not read as "nothing is": one `wsl.exe` hiccup would otherwise drop
/// every WSL endpoint along with its agents and its backoff state.
#[test]
fn poll_a_failed_listing_leaves_the_endpoint_set_alone() {
    let mut endpoints = Endpoints::new(NOW);
    endpoints.adopt_listing(Some(vec!["kali-linux".to_string()]), NOW);
    let listed = endpoints.generation();

    endpoints.adopt_listing(None, NOW);
    assert_eq!(endpoints.caches().len(), 2);
    assert_eq!(endpoints.generation(), listed);

    endpoints.adopt_listing(Some(Vec::new()), NOW);
    assert_eq!(endpoints.caches().len(), 1, "an answered empty listing does remove it");
}

#[test]
fn poll_a_repeated_error_is_logged_once() {
    let mut reach = Reach::default();
    assert!(reach.record_failure(&PollError::Server("protocol_mismatch".into())));
    assert!(!reach.record_failure(&PollError::Server("protocol_mismatch".into())));
    assert!(reach.record_failure(&PollError::Server("server_not_running".into())));
}

#[test]
fn a_side_is_connected_before_it_is_listed() {
    let mut cache = EndpointCache::new(Side::Native, NOW);
    assert_eq!(idle(&mut cache, Listing::Agents, false), vec![Action::OpenLink]);
    assert!(matches!(cache.link, Link::Connecting { failures: 0 }));
    assert!(idle(&mut cache, Listing::Agents, false).is_empty());
    let asked = cache.poll(
        Listing::Agents,
        false,
        Inputs { link: vec![Message::Started], ..nothing() },
        NOW,
    );
    let list = Action::StartListing { listing: Listing::Agents, attached: false };
    assert!(asked.contains(&list), "{asked:?}");
    assert_eq!(cache.link, Link::Up);
}

#[test]
fn an_abandoned_side_is_left_alone_by_a_restart() {
    let mut cache = EndpointCache::new(Side::Native, NOW);
    cache.link = Link::Abandoned;
    cache.restart(NOW);
    assert_eq!(cache.link, Link::Abandoned);
    cache.reconnect_now(NOW);
    assert_eq!(cache.link, Link::Abandoned);
    cache.link = Link::Down { failures: 3, retry_at: NOW + 60_000_000_000 };
    cache.reconnect_now(NOW);
    assert_eq!(cache.link, Link::Down { failures: 3, retry_at: NOW });
}

#[test]
fn an_inventory_names_every_terminal_once() {
    let twice = r#"{"result":{"panes":[{"terminal_id":"b"},{"terminal_id":"a"},{"terminal_id":"b"}]}}"#;
    let reply = ListingReply::parse(twice, Listing::Panes, NOW, true);
    assert_eq!(reply.inventory, Some(Ok(vec!["a".to_string(), "b".to_string()])));
}

#[test]
fn a_distro_listing_is_asked_for_once_at_a_time() {
    let mut endpoints = Endpoints::new(NOW);
    endpoints.adopt_running(&vec!["a".to_string(), "b".to_string()], NOW);
    assert_eq!(endpoints.caches().len(), 3);
    assert_eq!(endpoints.position(&Side::Wsl("b".into())), Some(2));
    assert_eq!(endpoints.position(&Side::Wsl("c".into())), None);
}

/// A failure is a warning the first time, and giving the side up is said once.
#[test]
fn a_new_failure_is_said_once() {
    let refused = || Message::Ended(Some(PollError::Server("protocol_mismatch".into())));
    let ended = |cache: &mut EndpointCache, message: Message| {
        cache.link = Link::Connecting { failures: 0 };
        cache.poll(Listing::Agents, false, Inputs { link: vec![message], ..nothing() }, NOW)
    };
    let warning = Action::Warn("protocol_mismatch".to_string());
    let mut cache = EndpointCache::new(Side::Native, NOW);
    assert!(ended(&mut cache, refused()).contains(&warning));
    assert!(!ended(&mut cache, refused()).contains(&warning));
    let quiet = Message::Ended(Some(PollError::Server("server_not_running".into())));
    let said = ended(&mut cache, quiet);
    assert!(said.iter().all(|action| matches!(action, Action::WakeAfter(_))), "{said:?}");
    assert!(ended(&mut cache, refused()).contains(&warning), "another failure came between");

    let mut cache = EndpointCache::new(Side::Native, NOW);
    let said = ended(&mut cache, Message::Ended(Some(PollError::Absent("spawn_failed"))));
    let code = || "spawn_failed".to_string();
    assert_eq!(said, vec![Action::Warn(code()), Action::SayGivenUp(code())]);
}

/// A listing of distros that fails is worth a word once per run of failures.
#[test]
fn a_failed_distro_listing_is_said_once() {
    let mut endpoints = Endpoints::new(NOW);
    assert!(endpoints.adopt_listing(None, NOW));
    assert!(!endpoints.adopt_listing(None, NOW));
    assert!(!endpoints.adopt_listing(Some(Vec::new()), NOW));
    assert!(endpoints.adopt_listing(None, NOW));
    let mut endpoints = Endpoints::new(NOW);
    let first = endpoints.refresh_running(Landed::Waiting, true, NOW);
    assert_eq!((first.start, first.failure_is_new), (true, false));
    let failed = endpoints.refresh_running(Landed::Panicked, true, NOW + 1);
    assert_eq!((failed.start, failed.failure_is_new), (false, true));
    let again = endpoints.refresh_running(Landed::Waiting, true, NOW + DISTRO_REFRESH);
    assert_eq!((again.start, again.failure_is_new), (true, false));
    let failed = endpoints.refresh_running(Landed::Value(None), true, NOW + DISTRO_REFRESH + 1);
    assert_eq!((failed.start, failed.failure_is_new), (false, false));
}

use alacritree::herdr::endpoints::Endpoints;
use alacritree::herdr::interval::{IntervalCache, IntervalInputs};
use alacritree::herdr::model::{Listing, PollError, Reach, Settings};
use alacritree::herdr::poll::{Action, Landed, ListingReply, Read};
use alacritree::side::Side;

/// A time everything here happens around, in nanoseconds.
const NOW: u64 = 1_000_000_000_000;

/// How long a side is left alone between two listings.
const MINUTE: u64 = 60_000_000_000;

fn known(cache: &mut IntervalCache) {
    cache.endpoint.settings = Read::Done(Settings::default());
    cache.endpoint.session_name = Read::Done("fixture".into());
}

/// A poll that the listing in flight lands on.
fn land(
    cache: &mut IntervalCache,
    listing: Landed<Result<ListingReply, PollError>>,
    display: Listing,
    attached: bool,
) -> Vec<Action> {
    let inputs = IntervalInputs {
        listing,
        settings: Landed::Waiting,
        session_name: Landed::Waiting,
    };
    cache.poll(MINUTE, display, attached, inputs, NOW)
}

/// A poll on which nothing landed.
fn idle(cache: &mut IntervalCache, display: Listing, attached: bool) -> Vec<Action> {
    land(cache, Landed::Waiting, display, attached)
}

/// One listing driven to completion.
fn complete(
    cache: &mut IntervalCache,
    result: Result<&str, PollError>,
    listing: Listing,
    display: Listing,
    sampled_at: u64,
) {
    known(cache);
    cache.last_attempt = Some(NOW);
    cache.endpoint.pending = true;
    let reply = result.map(|stdout| ListingReply::parse(stdout, listing, sampled_at, true));
    land(cache, Landed::Value(reply), display, true);
}

#[test]
fn attachment_metadata_survives_a_first_poll_failure_after_binding() {
    let mut cache = IntervalCache::new(Side::Native);
    known(&mut cache);
    cache.last_attempt = Some(NOW);
    let reply = ListingReply::parse(
        r#"{"result":{"agents":[{"terminal_id":"agent","pane_id":"w1:p1","agent":"amp","agent_status":"working","terminal_title_stripped":"review work"}]}}"#,
        Listing::Agents,
        NOW,
        false,
    );
    cache.endpoint.pending = true;
    land(&mut cache, Landed::Value(Ok(reply)), Listing::Agents, false);
    assert!(cache.endpoint.attachment_panes.is_empty());
    assert_eq!(cache.endpoint.agents()[0].title.as_deref(), Some("review work"));

    complete(
        &mut cache,
        Err(PollError::Absent("spawn_failed")),
        Listing::Panes,
        Listing::Agents,
        NOW,
    );

    let pane =
        cache.endpoint.attachment_pane("agent").expect("the bound pane retains its known details");
    assert_eq!(pane.agent.title.as_deref(), Some("review work"));
    assert!(!pane.current);
    assert!(pane.agent.status.is_none());
    assert!(!pane.agent.focused);
}

#[test]
fn herdr_attachment_metadata_is_released_without_bindings() {
    let mut cache = IntervalCache::new(Side::Native);
    complete(
        &mut cache,
        Ok(r#"{"result":{"panes":[{"terminal_id":"shell","pane_id":"w1:p1"}]}}"#),
        Listing::Panes,
        Listing::Agents,
        NOW,
    );
    assert!(cache.endpoint.attachment_pane("shell").is_some());
    idle(&mut cache, Listing::Agents, false);
    assert!(cache.endpoint.attachment_pane("shell").is_none());
    assert!(!cache.endpoint.pending);
}

#[test]
fn herdr_inventory_adoption_keeps_the_request_timestamp_when_display_changes_in_flight() {
    let mut cache = IntervalCache::new(Side::Native);
    let started = NOW - 1_000_000_000;
    complete(
        &mut cache,
        Ok(r#"{"result":{"panes":[
        {"terminal_id":"shell","pane_id":"w1:p1"},
        {"terminal_id":"agent","pane_id":"w1:p2","agent":"codex","agent_status":"idle"}
    ]}}"#),
        Listing::Panes,
        Listing::Agents,
        started,
    );

    assert_eq!(cache.endpoint.inventory().unwrap().sampled_at, started);
    assert_eq!(cache.endpoint.inventory().unwrap().terminal_ids.len(), 2);
    assert_eq!(cache.endpoint.agents()[0].terminal_id, "agent");
    assert_eq!(cache.endpoint.agents().len(), 1);

    complete(
        &mut cache,
        Ok(r#"{"result":{"agents":[]}}"#),
        Listing::Agents,
        Listing::Panes,
        started,
    );
    assert!(cache.endpoint.inventory().is_none());
}

#[test]
fn attached_inventory_retries_failed_and_malformed_polls_at_the_configured_interval() {
    let interval = 2_000_000_000;
    for result in [
        Err(PollError::Absent("spawn_failed")),
        Err(PollError::Server("server_not_running".into())),
        Ok("invalid json"),
    ] {
        let mut cache = IntervalCache::new(Side::Native);
        complete(
        &mut cache,
            result,
            Listing::Panes,
            Listing::Agents,
            NOW,
        );
        assert!(cache.endpoint.inventory().is_none());
        assert!(!cache.poll_due(interval, true, NOW));
        cache.last_attempt = Some(NOW - interval);
        assert!(cache.poll_due(interval, true, NOW));
        assert!(!cache.poll_due(interval, false, NOW));
    }
}

#[test]
fn failed_inventory_jobs_invalidate_success_and_keep_attached_retries_alive() {
    let mut cache = IntervalCache::new(Side::Native);
    complete(
        &mut cache,
        Ok(r#"{"result":{"panes":[]}}"#),
        Listing::Panes,
        Listing::Panes,
        NOW,
    );
    assert!(cache.endpoint.inventory().is_some());
    cache.endpoint.pending = true;
    land(&mut cache, Landed::Panicked, Listing::Panes, true);

    assert!(cache.endpoint.inventory().is_none());
    assert!(cache.endpoint.sampled_at().is_none());
    assert!(!cache.endpoint.pending);
    cache.last_attempt = Some(NOW - 2_000_000_000);
    assert!(cache.poll_due(2_000_000_000, true, NOW));
}

#[test]
fn herdr_inventory_unchanged_frames_do_not_request_immediate_polls() {
    let mut cache = IntervalCache::new(Side::Native);
    let started = NOW;
    complete(
        &mut cache,
        Ok(r#"{"result":{"panes":[]}}"#),
        Listing::Panes,
        Listing::Panes,
        started,
    );
    for _ in 0..20 {
        idle(&mut cache, Listing::Panes, true);
        assert!(!cache.endpoint.pending);
        assert_eq!(cache.endpoint.inventory().unwrap().sampled_at, started);
    }
    idle(&mut cache, Listing::Panes, false);
    assert!(cache.endpoint.inventory().is_none());
    assert!(!cache.endpoint.pending);
}

#[test]
fn herdr_pane_display_without_attachments_does_not_build_an_inventory() {
    let mut cache = IntervalCache::new(Side::Native);
    known(&mut cache);
    cache.last_attempt = Some(NOW);
    let reply = ListingReply::parse(
        r#"{"result":{"panes":[{"terminal_id":"shell","pane_id":"w1:p1"}]}}"#,
        Listing::Panes,
        NOW,
        false,
    );
    cache.endpoint.pending = true;
    land(&mut cache, Landed::Value(Ok(reply)), Listing::Panes, false);

    assert!(cache.endpoint.inventory().is_none());
    assert_eq!(cache.endpoint.agents()[0].terminal_id, "shell");
}

#[test]
fn herdr_failed_distro_listing_invalidates_only_wsl_inventory_evidence() {
    let mut endpoints = Endpoints::new(NOW);
    endpoints.adopt_running(&vec!["ubuntu".into()], NOW);
    for cache in &mut endpoints.caches {
        let reply = ListingReply::parse(r#"{"result":{"panes":[]}}"#, Listing::Panes, NOW, true);
        cache.adopt_reply(reply, Listing::Panes, true);
    }

    endpoints.adopt_listing(None, NOW);

    assert!(endpoints.caches[0].inventory().is_some());
    assert!(endpoints.caches[1].inventory().is_none());
    endpoints.adopt_running(&vec![], NOW);
    assert_eq!(endpoints.caches.len(), 1);
}

#[test]
fn herdr_unchanged_listings_advance_freshness_without_rebuilding_rows() {
    let mut cache = IntervalCache::new(Side::Native);
    known(&mut cache);
    let first = NOW - 2_000_000_000;
    let second = first + 1_000_000_000;
    let mut first_generation = None;
    for started in [first, second] {
        cache.last_attempt = Some(started);
        let reply = ListingReply::parse(
            r#"{"result":{"panes":[
                    {"terminal_id":"t2","pane_id":"w2:p1","tab_id":"w2:t1","focused":true}
                ]}}"#,
            Listing::Panes,
            started,
            true,
        );
        cache.endpoint.pending = true;
        land(&mut cache, Landed::Value(Ok(reply)), Listing::Panes, true);
        assert!(!cache.endpoint.pending);
        assert_eq!(cache.endpoint.sampled_at(), Some(started));
        assert_eq!(cache.endpoint.agents()[0].terminal_id, "t2");
        assert!(cache.endpoint.agents()[0].focused);
        if let Some(generation) = first_generation {
            assert_eq!(cache.endpoint.generation(), generation);
        } else {
            first_generation = Some(cache.endpoint.generation());
        }
    }
}

#[test]
fn herdr_an_endpoint_with_no_herdr_is_given_up_on() {
    let mut reach = Reach::default();
    reach.record_failure(&PollError::Absent("spawn_failed"));
    assert!(!reach.should_retry(3_600_000_000_000));
}

/// The common way to meet herdr is to start it after alacritree, and an
/// endpoint that has only ever answered "no server" has still proved a
/// herdr lives there.
#[test]
fn herdr_a_server_that_starts_later_is_still_found() {
    let mut reach = Reach::default();
    reach.record_failure(&PollError::Server("server_not_running".into()));
    assert!(!reach.abandoned());
    assert!(!reach.should_retry(5_000_000_000));
    assert!(reach.should_retry(31_000_000_000));
}

/// A herdr that stops answering in its own voice, then stops answering at
/// all, is a herdr that went away — the endpoint follows the newer
/// evidence rather than the first thing it saw.
#[test]
fn herdr_a_side_that_loses_its_herdr_stops_being_polled() {
    let mut reach = Reach::default();
    reach.record_failure(&PollError::Server("server_not_running".into()));
    reach.record_failure(&PollError::Absent("herdr_unavailable"));
    assert!(reach.abandoned());
}

#[test]
fn an_endpoint_that_answered_once_keeps_retrying() {
    let mut reach = Reach::default();
    reach.record_success();
    reach.record_failure(&PollError::Absent("spawn_failed"));
    assert!(!reach.should_retry(5_000_000_000));
    assert!(reach.should_retry(31_000_000_000));
}

#[test]
fn a_recovered_endpoint_polls_at_the_normal_interval_again() {
    let mut reach = Reach::default();
    reach.record_success();
    reach.record_failure(&PollError::Server("server_not_running".into()));
    reach.record_success();
    assert!(reach.should_retry(0));
}

#[test]
fn herdr_an_endpoint_is_abandoned_only_after_a_failure_it_never_answered() {
    let mut reach = Reach::default();
    assert!(!reach.abandoned());
    reach.record_success();
    reach.record_failure(&PollError::Absent("spawn_failed"));
    assert!(!reach.abandoned(), "a server that answered once is retried, not given up on");

    let mut never = Reach::default();
    never.record_failure(&PollError::Absent("spawn_failed"));
    assert!(never.abandoned());
}

/// A stopped distro cannot be running a server, and polling one boots its
/// VM, so the endpoint set follows the running distros rather than the
/// registered ones.
#[test]
fn herdr_an_endpoint_follows_its_distro_starting_and_stopping() {
    let mut endpoints = Endpoints::new(NOW);
    assert_eq!(endpoints.caches().len(), 1);

    endpoints.adopt_running(&vec!["kali-linux".to_string()], NOW);
    let started = endpoints.generation();
    assert!(endpoints.caches().iter().any(|c| *c.side() == Side::Wsl("kali-linux".into())));

    endpoints.adopt_running(&vec!["kali-linux".to_string()], NOW);
    assert_eq!(endpoints.generation(), started, "an unchanged set is not a change");

    endpoints.adopt_running(&vec![], NOW);
    assert_eq!(endpoints.caches().len(), 1);
    assert_eq!(*endpoints.caches()[0].side(), Side::Native, "the native side is permanent");
    assert_ne!(endpoints.generation(), started, "the rows the endpoint carried are gone");
}

/// The endpoint an adoption removes carries its own generation away with
/// it, and a set change has to outweigh that however far the endpoint had
/// counted — `1`, what a cache holds after its first agent lands, most of
/// all.
#[test]
fn herdr_removing_an_endpoint_that_landed_a_poll_is_still_observable() {
    let mut endpoints = Endpoints::new(NOW);
    endpoints.adopt_running(&vec!["kali-linux".to_string()], NOW);
    endpoints.caches[1].generation = 1;
    let with_agent = endpoints.generation();

    endpoints.adopt_running(&vec![], NOW);
    assert_ne!(endpoints.generation(), with_agent);
}

/// A listing that failed says nothing about what is running, so it must
/// not read as "nothing is": one `wsl.exe` hiccup would otherwise drop
/// every WSL endpoint along with its agents and its backoff state.
#[test]
fn herdr_a_failed_listing_leaves_the_endpoint_set_alone() {
    let mut endpoints = Endpoints::new(NOW);
    endpoints.adopt_listing(Some(vec!["kali-linux".to_string()]), NOW);
    let listed = endpoints.generation();

    endpoints.adopt_listing(None, NOW);
    assert_eq!(endpoints.caches().len(), 2);
    assert_eq!(endpoints.generation(), listed);

    endpoints.adopt_listing(Some(Vec::new()), NOW);
    assert_eq!(endpoints.caches().len(), 1, "an answered empty listing does remove it");
}

#[test]
fn herdr_a_repeated_error_is_logged_once() {
    let mut reach = Reach::default();
    assert!(reach.record_failure(&PollError::Server("protocol_mismatch".into())));
    assert!(!reach.record_failure(&PollError::Server("protocol_mismatch".into())));
    assert!(reach.record_failure(&PollError::Server("server_not_running".into())));
}

#[test]
fn a_side_never_asked_is_asked_at_once() {
    let mut cache = IntervalCache::new(Side::Native);
    assert!(cache.poll_due(2_000_000_000, false, NOW));
    let asked = idle(&mut cache, Listing::Agents, false);
    assert_eq!(
        asked,
        vec![Action::StartListing { listing: Listing::Agents, attached: false }]
    );
    assert!(cache.endpoint.pending);
    assert_eq!(cache.last_attempt, Some(NOW));
    assert!(idle(&mut cache, Listing::Agents, false).is_empty());
    let mut attached = IntervalCache::new(Side::Native);
    let asked = idle(&mut attached, Listing::Agents, true);
    assert_eq!(asked, vec![Action::StartListing { listing: Listing::Panes, attached: true }]);
}

#[test]
fn an_error_drops_the_rows_at_once() {
    let mut cache = IntervalCache::new(Side::Native);
    let listed = r#"{"result":{"panes":[{"terminal_id":"a","pane_id":"p","agent":"x","agent_status":"idle"}]}}"#;
    complete(&mut cache, Ok(listed), Listing::Panes, Listing::Panes, NOW);
    assert_eq!(cache.endpoint.agents().len(), 1);
    let generation = cache.endpoint.generation();
    let down = PollError::Server("server_not_running".into());
    complete(&mut cache, Err(down), Listing::Panes, Listing::Panes, NOW);
    assert!(cache.endpoint.agents().is_empty());
    assert_ne!(cache.endpoint.generation(), generation);
    assert!(cache.endpoint.session_name().is_none());
}

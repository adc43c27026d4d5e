//! What holds of an endpoint across its operations.

use vstd::prelude::*;

#[allow(unused_imports)]
use crate::herdr::events::Event;
#[allow(unused_imports)]
use crate::herdr::model::{error_code_of, Listing, PollErrorView};
#[allow(unused_imports)]
use crate::herdr::poll::{
    agent_ids, all_stale, all_with_status, countable, held_ids, rows_differ, with_agents, with_status, ActionView, EndpointState, Inputs, Landed,
    Link, ReplyView, NO_SERVER,
};
#[allow(unused_imports)]
use crate::multiplexer::model::{Pane, PaneStatus};
#[allow(unused_imports)]
use crate::text::strictly_ordered;

verus! {

/// Every pane of that id that holds an agent is in that state.
pub open spec fn all_in_state(rows: Seq<Pane>, pane_id: Seq<char>, status: PaneStatus) -> bool {
    forall|i: int|
        0 <= i < rows.len() && (#[trigger] rows[i]).pane_id@ == pane_id && rows[i].status is Some ==> rows[i].status
            == Some(status)
}

/// A status event that arrives while a listing is in flight is not undone by
/// that listing: whatever the listing says of the pane, the row is in the
/// state the event gave.
pub proof fn a_patch_during_a_listing_survives_it(
    s: EndpointState,
    pane_id: String,
    status: PaneStatus,
    reply: ReplyView,
    display: Listing,
    attached: bool,
    seen: u64,
    now: u64,
)
    requires
        s.pending,
    ensures
        all_in_state(
            s.received(Event::Status { pane_id, status }, seen).listing_landed(
                Landed::Value(Ok(reply)),
                display,
                attached,
                now,
            ).agents,
            pane_id@,
            status,
        ),
{
    let event = Event::Status { pane_id, status };
    let patched = s.received(event, seen);
    assert(patched.held == s.held.push(event));
    assert(patched.pending);
    let adopted = patched.adopted(reply, display, attached);
    assert(adopted.held == patched.held);
    let clean = EndpointState { held: Seq::empty(), ..adopted };
    assert(s.held.push(event).drop_last() =~= s.held);
    let before = clean.all_applied(s.held, now);
    let after = before.applied(event, now);
    assert(adopted.replayed(now) == after);
    assert(after.agents == all_with_status(before.agents, pane_id@, status));
    let landed = patched.listing_landed(Landed::Value(Ok(reply)), display, attached, now);
    assert(landed.agents == after.agents);
    assert forall|i: int|
        0 <= i < landed.agents.len() && (#[trigger] landed.agents[i]).pane_id@ == pane_id@
            && landed.agents[i].status is Some implies landed.agents[i].status == Some(status) by {
        assert(landed.agents[i] == with_status(before.agents[i], pane_id@, status));
    }
}

/// The first failed listing of a run keeps what herdr last reported: the rows,
/// the attached panes and the time they were sampled.  Membership alone is
/// given up.
pub proof fn one_failed_listing_keeps_the_rows(s: EndpointState, error: PollErrorView, now: u64)
    requires
        s.blank_at is None,
        countable(now),
    ensures
        s.listing_failed(error, now).agents == s.agents,
        s.listing_failed(error, now).attachment == s.attachment,
        s.listing_failed(error, now).sampled_at == s.sampled_at,
        s.listing_failed(error, now).generation == s.generation,
        s.listing_failed(error, now).inventory is None,
        s.listing_failed(error, now).blank_at is Some,
{
}

/// Listings that keep failing past the grace drop the rows, and no attached
/// pane is current any more.
pub proof fn failures_past_the_grace_drop_the_rows(s: EndpointState, error: PollErrorView, now: u64)
    requires
        s.blank_at matches Some(at) && at <= now,
    ensures
        s.listing_failed(error, now).agents.len() == 0,
        s.listing_failed(error, now).sampled_at is None,
        s.listing_failed(error, now).attachment == all_stale(s.attachment),
        s.agents.len() > 0 ==> s.listing_failed(error, now).generation != s.generation,
{
}

/// A listing that answers ends a run of failures, so the next failure starts
/// its grace over.
pub proof fn an_answer_starts_the_grace_over(s: EndpointState, reply: ReplyView, display: Listing, attached: bool)
    requires
        !(attached && reply.inventory is Some && reply.inventory->0 is Err),
    ensures
        s.adopted(reply, display, attached).blank_at is None,
        s.adopted(reply, display, attached).reach == s.reach.answered(),
        s.adopted(reply, display, attached).sampled_at == Some(reply.sampled_at),
{
}

/// A listing that changes nothing a row shows advances the sample time and
/// leaves the generation, so the sidebar is not rebuilt.
pub proof fn an_unchanged_listing_does_not_rebuild_rows(
    s: EndpointState,
    reply: ReplyView,
    display: Listing,
    attached: bool,
)
    requires
        !rows_differ(
            s.agents,
            if display == Listing::Agents && reply.listing == Listing::Panes {
                with_agents(reply.agents)
            } else {
                reply.agents
            },
        ),
        !(attached && reply.inventory is Some && reply.inventory->0 is Err),
    ensures
        s.adopted(reply, display, attached).generation == s.generation,
        s.adopted(reply, display, attached).sampled_at == Some(reply.sampled_at),
{
}

/// A failure is said once: the same one again asks for no further word.
pub proof fn a_failure_is_said_once(s: EndpointState, error: PollErrorView)
    ensures
        s.failure_said(error).failure_said(error).actions == s.failure_said(error).actions,
{
}

/// A new failure is a warning, and an answer between two makes the second new
/// again; only a server that is not running is nothing to warn about.
pub proof fn a_new_failure_is_a_warning(s: EndpointState, error: PollErrorView)
    requires
        s.reach.novel(error),
        error_code_of(error) != NO_SERVER@,
    ensures
        s.failure_said(error).actions.contains(ActionView::Warn(error_code_of(error))),
        s.failure_said(error).answered().reach.novel(error),
{
    let code = error_code_of(error);
    let said = s.failure_said(error).actions;
    assert(said[s.actions.len() as int] == ActionView::Warn(code));
}

/// A server that is not running is retried without a word.
pub proof fn a_server_not_running_is_no_warning(s: EndpointState)
    ensures
        s.failure_said(PollErrorView::Server(NO_SERVER@)).actions == s.actions,
{
}

/// herdr closing a stream it had accepted reconnects at once and keeps the
/// rows through the grace, while membership is given up.
pub proof fn a_closed_stream_reconnects_at_once(s: EndpointState, now: u64)
    requires
        s.link is Up,
        countable(now),
    ensures
        s.link_ended(None, now).link == (Link::Down { failures: 0, retry_at: now }),
        s.link_ended(None, now).agents == s.agents,
        s.link_ended(None, now).inventory is None,
        s.link_ended(None, now).status is None,
{
}

/// A side whose herdr is not up yet is retried on a backoff that never grows
/// past its last step.
pub proof fn a_server_not_running_is_retried(s: EndpointState, code: Seq<char>, now: u64)
    requires
        s.link is Connecting,
        countable(now),
    ensures
        s.link_ended(Some(PollErrorView::Server(code)), now).link matches Link::Down { failures, retry_at }
            && failures >= 1 && now < retry_at <= now + 5_000_000_000,
{
}

/// A side on which no herdr has ever answered and the last try found none is
/// given up on.
pub proof fn a_side_with_no_herdr_is_given_up_on(s: EndpointState, code: Seq<char>, now: u64)
    requires
        !s.reach.ever_answered,
    ensures
        s.link_ended(Some(PollErrorView::Absent(code)), now).link == Link::Abandoned,
{
}

/// A side that was given up on stays so, and asks for no stream and no
/// listing, whatever it is told.
pub proof fn an_abandoned_side_stays_abandoned(
    s: EndpointState,
    listing: Listing,
    attached: bool,
    inputs: Inputs,
    now: u64,
)
    requires
        s.link is Abandoned,
        s.status is None,
    ensures
        s.polled(listing, attached, inputs, now).link is Abandoned,
        s.polled(listing, attached, inputs, now).status is None,
        !s.pending ==> s.polled(listing, attached, inputs, now).actions == s.actions,
{
    let a = s.seeded(attached).settings_landed(inputs.settings).session_landed(inputs.session_name);
    let b = a.link_advanced(inputs.link@, now).status_advanced(inputs.status@, now);
    assert(b == a);
    let landed = crate::herdr::poll::landed_reply(inputs.listing);
    let c = b.listing_landed(landed, listing, attached, now);
    if s.pending {
        if let Landed::Value(Ok(reply)) = landed {
            let adopted = b.adopted(reply, listing, attached);
            replay_keeps(EndpointState { held: Seq::empty(), ..adopted }, adopted.held, now);
        }
    }
    assert(c.link is Abandoned);
}

/// Applying events moves no link, subscription or listing in flight, and asks
/// for nothing.
pub proof fn replay_keeps(s: EndpointState, events: Seq<Event>, now: u64)
    ensures
        s.all_applied(events, now).link == s.link,
        s.all_applied(events, now).status == s.status,
        s.all_applied(events, now).status_refused == s.status_refused,
        s.all_applied(events, now).pending == s.pending,
        s.all_applied(events, now).actions == s.actions,
        s.all_applied(events, now).side == s.side,
        s.all_applied(events, now).reach == s.reach,
        s.all_applied(events, now).inventory == s.inventory,
    decreases events.len(),
{
    if events.len() > 0 {
        replay_keeps(s, events.drop_last(), now);
    }
}

/// Where nothing changed since the last listing, a poll lists nothing.
pub proof fn a_landed_listing_is_not_followed_by_another(
    s: EndpointState,
    listing: Listing,
    attached: bool,
    now: u64,
)
    requires
        s.link is Up,
        !s.pending,
        s.listed_for == Some((listing, attached)),
        s.listing_due is None,
    ensures
        s.due_started(listing, attached, now) == s.status_synced(),
        !s.due_started(listing, attached, now).pending,
{
}

/// A listing in flight is never joined by a second one.
pub proof fn one_listing_at_a_time(s: EndpointState, listing: Listing, attached: bool, now: u64)
    requires
        s.pending,
    ensures
        s.due_started(listing, attached, now).actions == s.actions,
        s.due_started(listing, attached, now).pending,
{
}

/// The status subscription names each pane that holds an agent once, in order,
/// and no other pane.
pub proof fn the_status_subscription_names_the_listed_agents(s: EndpointState)
    ensures
        strictly_ordered(s.watched()),
        forall|id: Seq<char>| #[trigger] s.watched().contains(id) <==> (agent_ids(s.agents) + held_ids(s.attachment)).contains(id),
{
    crate::text::a_sorted_set_is_the_list_in_order(agent_ids(s.agents) + held_ids(s.attachment));
}

/// A subscription herdr refused is not asked for again while the same panes
/// are listed.
pub proof fn a_refused_subscription_is_not_asked_for_again(s: EndpointState)
    requires
        s.status_refused == Some(s.watched()),
    ensures
        s.status_synced() == s,
{
}

/// Without attached sessions a poll leaves no membership and no attached
/// panes, whatever landed.
pub proof fn nothing_is_kept_without_attachments(s: EndpointState, listing: Listing, inputs: Inputs, now: u64)
    ensures
        s.polled(listing, false, inputs, now).inventory is None,
        s.polled(listing, false, inputs, now).attachment.len() == 0,
{
    let a = s.seeded(false).settings_landed(inputs.settings).session_landed(inputs.session_name).link_advanced(
        inputs.link@,
        now,
    ).status_advanced(inputs.status@, now).listing_landed(
        crate::herdr::poll::landed_reply(inputs.listing),
        listing,
        false,
        now,
    );
    let b = a.detached(false);
    assert(b.inventory is None && b.attachment.len() == 0);
    assert(all_stale(b.attachment).len() == 0);
}

} // verus!

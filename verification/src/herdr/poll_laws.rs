//! What an event, a listing and a failure come to in the rows of an endpoint.

use vstd::prelude::*;

#[allow(unused_imports)]
use crate::herdr::events::{Event, Message};
#[allow(unused_imports)]
use crate::herdr::laws::replay_keeps;
#[allow(unused_imports)]
use crate::herdr::model::{Indicators, Listing, PollErrorView, Settings};
#[allow(unused_imports)]
use crate::herdr::poll::{
    agent_ids, all_refreshed, all_stale, backoff, countable, current_at, held_ids, members_of, pane_at, refreshed,
    reply_inventory, stale, terminal_at, ActionView, EndpointState, Inputs, Landed, Link, PaneMetadata, Read,
    ReplyView,
};
#[allow(unused_imports)]
use crate::herdr::wire::inventory_ids;
#[allow(unused_imports)]
use crate::text::{a_sorted_set_is_the_list_in_order, sorted_set};
#[allow(unused_imports)]
use crate::multiplexer::model::{Pane, PaneStatus};
#[allow(unused_imports)]
use crate::side::SideView;

verus! {

/// The row at `at` is the first of its pane.
pub open spec fn first_row(rows: Seq<Pane>, pane_id: Seq<char>, at: int) -> bool {
    &&& 0 <= at < rows.len()
    &&& rows[at].pane_id@ == pane_id
    &&& forall|i: int| 0 <= i < at ==> (#[trigger] rows[i]).pane_id@ != pane_id
}

/// The attached pane at `at` is the first current one of its id.
pub open spec fn first_held(held: Seq<PaneMetadata>, pane_id: Seq<char>, at: int) -> bool {
    &&& 0 <= at < held.len()
    &&& held[at].current && held[at].agent.pane_id@ == pane_id
    &&& forall|i: int|
        0 <= i < at ==> !((#[trigger] held[i]).current && held[i].agent.pane_id@ == pane_id)
}

proof fn no_row_is_found(rows: Seq<Pane>, pane_id: Seq<char>)
    requires
        forall|i: int| 0 <= i < rows.len() ==> (#[trigger] rows[i]).pane_id@ != pane_id,
    ensures
        pane_at(rows, pane_id) is None,
    decreases rows.len(),
{
    if rows.len() > 0 {
        let front = rows.drop_last();
        assert forall|i: int| 0 <= i < front.len() implies (#[trigger] front[i]).pane_id@ != pane_id by {
            assert(front[i] == rows[i]);
        }
        no_row_is_found(front, pane_id);
        assert(rows.last() == rows[rows.len() - 1]);
    }
}

proof fn the_first_row_is_found(rows: Seq<Pane>, pane_id: Seq<char>, at: int)
    requires
        first_row(rows, pane_id, at),
    ensures
        pane_at(rows, pane_id) == Some(at),
    decreases rows.len(),
{
    let front = rows.drop_last();
    assert forall|i: int| 0 <= i < front.len() implies #[trigger] front[i] == rows[i] by {}
    if at < rows.len() - 1 {
        the_first_row_is_found(front, pane_id, at);
    } else {
        no_row_is_found(front, pane_id);
    }
}

proof fn no_held_is_found(held: Seq<PaneMetadata>, pane_id: Seq<char>)
    requires
        forall|i: int|
            0 <= i < held.len() ==> !((#[trigger] held[i]).current && held[i].agent.pane_id@ == pane_id),
    ensures
        current_at(held, pane_id) is None,
    decreases held.len(),
{
    if held.len() > 0 {
        let front = held.drop_last();
        assert forall|i: int| 0 <= i < front.len() implies !((#[trigger] front[i]).current
            && front[i].agent.pane_id@ == pane_id) by {
            assert(front[i] == held[i]);
        }
        no_held_is_found(front, pane_id);
        assert(held.last() == held[held.len() - 1]);
    }
}

proof fn the_first_held_is_found(held: Seq<PaneMetadata>, pane_id: Seq<char>, at: int)
    requires
        first_held(held, pane_id, at),
    ensures
        current_at(held, pane_id) == Some(at),
    decreases held.len(),
{
    let front = held.drop_last();
    assert forall|i: int| 0 <= i < front.len() implies #[trigger] front[i] == held[i] by {}
    if at < held.len() - 1 {
        the_first_held_is_found(front, pane_id, at);
    } else {
        no_held_is_found(front, pane_id);
    }
}

/// A pane that herdr re-describes is shown as it now is: its first row becomes
/// the pane the event carries, field for field, and every other row stays.
pub proof fn an_update_replaces_its_row(s: EndpointState, pane: Pane, now: u64, at: int)
    requires
        first_row(s.agents, pane.pane_id@, at),
        pane.status is Some || s.listed_for != Some((Listing::Agents, false)),
    ensures
        ({
            let after = s.applied(Event::Updated(pane), now).agents;
            &&& after.len() == s.agents.len()
            &&& after[at] == pane
            &&& forall|i: int| 0 <= i < after.len() && i != at ==> after[i] == s.agents[i]
        }),
{
    the_first_row_is_found(s.agents, pane.pane_id@, at);
}

/// The sidebar is told of an update exactly where it shows: the generation
/// moves if and only if something a row renders of the pane has changed, and
/// a listing that was current then counts as sampled at the event.
pub proof fn an_update_is_seen_where_it_shows(s: EndpointState, pane: Pane, now: u64, at: int)
    requires
        first_row(s.agents, pane.pane_id@, at),
        pane.status is Some || s.listed_for != Some((Listing::Agents, false)),
    ensures
        ({
            let was = s.agents[at]@;
            let later = pane@;
            let after = s.applied(Event::Updated(pane), now);
            let shows = was.terminal_id != later.terminal_id || was.status != later.status || was.kind != later.kind
                || was.title != later.title || was.focused != later.focused || was.cwd != later.cwd || was.foreground_cwd
                != later.foreground_cwd;
            &&& shows <==> after.generation != s.generation
            &&& shows && s.sampled_at is Some ==> after.sampled_at == Some(now)
            &&& !(shows && s.sampled_at is Some) ==> after.sampled_at == s.sampled_at
        }),
{
    the_first_row_is_found(s.agents, pane.pane_id@, at);
}

/// A pane that lost its agent while only agents are listed is left to the next
/// listing, which is due at once; no row changes.
pub proof fn an_update_that_leaves_the_listing_relists(s: EndpointState, pane: Pane, now: u64, at: int)
    requires
        first_row(s.agents, pane.pane_id@, at),
        pane.status is None,
        s.listed_for == Some((Listing::Agents, false)),
    ensures
        s.applied(Event::Updated(pane), now).agents == s.agents,
        s.applied(Event::Updated(pane), now).generation == s.generation,
        s.applied(Event::Updated(pane), now).listing_due == Some(now),
{
    the_first_row_is_found(s.agents, pane.pane_id@, at);
}

/// An update of a pane that has no row makes none.
pub proof fn an_update_adds_no_row(s: EndpointState, pane: Pane, now: u64)
    requires
        forall|i: int| 0 <= i < s.agents.len() ==> (#[trigger] s.agents[i]).pane_id@ != pane.pane_id@,
    ensures
        s.applied(Event::Updated(pane), now).agents == s.agents,
        s.applied(Event::Updated(pane), now).generation == s.generation,
        s.applied(Event::Updated(pane), now).listing_due == s.listing_due,
{
    no_row_is_found(s.agents, pane.pane_id@);
}

/// What is known of an attached pane follows the update too: the first current
/// one of its id becomes the pane the event carries, and the others stay.
pub proof fn an_update_replaces_the_attached_pane(s: EndpointState, pane: Pane, now: u64, at: int)
    requires
        first_held(s.attachment, pane.pane_id@, at),
    ensures
        ({
            let after = s.applied(Event::Updated(pane), now).attachment;
            &&& after.len() == s.attachment.len()
            &&& after[at].agent == pane && after[at].current
            &&& forall|i: int| 0 <= i < after.len() && i != at ==> after[i] == s.attachment[i]
        }),
{
    the_first_held_is_found(s.attachment, pane.pane_id@, at);
}

/// A pane that is no longer current is not brought back by an update.
pub proof fn an_update_revives_no_attached_pane(s: EndpointState, pane: Pane, now: u64)
    requires
        forall|i: int|
            0 <= i < s.attachment.len() ==> !((#[trigger] s.attachment[i]).current
                && s.attachment[i].agent.pane_id@ == pane.pane_id@),
    ensures
        s.applied(Event::Updated(pane), now).attachment == s.attachment,
{
    no_held_is_found(s.attachment, pane.pane_id@);
}

/// A status event puts every agent of its pane into that state, in the rows
/// and among the current attached panes, and changes nothing else of any pane:
/// a pane without an agent gains none.
pub proof fn a_status_event_sets_the_state_of_its_pane(
    s: EndpointState,
    pane_id: String,
    status: PaneStatus,
    now: u64,
)
    ensures
        ({
            let after = s.applied(Event::Status { pane_id, status }, now);
            &&& after.agents.len() == s.agents.len()
            &&& forall|i: int|
                0 <= i < s.agents.len() ==> {
                    let was = s.agents[i];
                    let later = #[trigger] after.agents[i];
                    &&& later == (Pane { status: later.status, ..was })
                    &&& was.pane_id@ == pane_id@ && was.status is Some ==> later.status == Some(status)
                    &&& was.pane_id@ != pane_id@ || was.status is None ==> later.status == was.status
                }
            &&& after.attachment.len() == s.attachment.len()
            &&& forall|i: int|
                0 <= i < s.attachment.len() ==> {
                    let was = s.attachment[i];
                    let later = #[trigger] after.attachment[i];
                    &&& later.current == was.current
                    &&& later.agent == (Pane { status: later.agent.status, ..was.agent })
                    &&& was.current && was.agent.pane_id@ == pane_id@ && was.agent.status is Some
                        ==> later.agent.status == Some(status)
                    &&& !(was.current && was.agent.pane_id@ == pane_id@ && was.agent.status is Some)
                        ==> later.agent.status == was.agent.status
                }
        }),
{
    let after = s.applied(Event::Status { pane_id, status }, now);
    assert forall|i: int| 0 <= i < s.agents.len() implies ({
        let was = s.agents[i];
        let later = #[trigger] after.agents[i];
        &&& later == (Pane { status: later.status, ..was })
        &&& was.pane_id@ == pane_id@ && was.status is Some ==> later.status == Some(status)
        &&& was.pane_id@ != pane_id@ || was.status is None ==> later.status == was.status
    }) by {
        assert(after.agents[i] == crate::herdr::poll::with_status(s.agents[i], pane_id@, status));
    }
    assert forall|i: int| 0 <= i < s.attachment.len() implies ({
        let was = s.attachment[i];
        let later = #[trigger] after.attachment[i];
        &&& later.current == was.current
        &&& later.agent == (Pane { status: later.agent.status, ..was.agent })
        &&& was.current && was.agent.pane_id@ == pane_id@ && was.agent.status is Some ==> later.agent.status
            == Some(status)
        &&& !(was.current && was.agent.pane_id@ == pane_id@ && was.agent.status is Some) ==> later.agent.status
            == was.agent.status
    }) by {
        assert(after.attachment[i] == crate::herdr::poll::held_with_status(
            s.attachment,
            pane_id@,
            status,
        )[i]);
    }
}

/// A focus event focuses its pane and no other, in the rows and among the
/// current attached panes, and changes nothing else of any pane.
pub proof fn a_focus_event_focuses_its_pane_alone(s: EndpointState, pane_id: String, now: u64)
    ensures
        ({
            let after = s.applied(Event::Focused { pane_id }, now);
            &&& after.agents.len() == s.agents.len()
            &&& forall|i: int|
                0 <= i < s.agents.len() ==> {
                    let later = #[trigger] after.agents[i];
                    &&& later == (Pane { focused: later.focused, ..s.agents[i] })
                    &&& later.focused <==> s.agents[i].pane_id@ == pane_id@
                }
            &&& after.attachment.len() == s.attachment.len()
            &&& forall|i: int|
                0 <= i < s.attachment.len() ==> {
                    let was = s.attachment[i];
                    let later = #[trigger] after.attachment[i];
                    &&& later.current == was.current
                    &&& later.agent == (Pane { focused: later.agent.focused, ..was.agent })
                    &&& was.current ==> (later.agent.focused <==> was.agent.pane_id@ == pane_id@)
                    &&& !was.current ==> later.agent.focused == was.agent.focused
                }
        }),
{
    let after = s.applied(Event::Focused { pane_id }, now);
    assert forall|i: int| 0 <= i < s.agents.len() implies ({
        let later = #[trigger] after.agents[i];
        &&& later == (Pane { focused: later.focused, ..s.agents[i] })
        &&& later.focused <==> s.agents[i].pane_id@ == pane_id@
    }) by {
        assert(after.agents[i] == crate::herdr::poll::with_focus(s.agents[i], pane_id@));
    }
    assert forall|i: int| 0 <= i < s.attachment.len() implies ({
        let was = s.attachment[i];
        let later = #[trigger] after.attachment[i];
        &&& later.current == was.current
        &&& later.agent == (Pane { focused: later.agent.focused, ..was.agent })
        &&& was.current ==> (later.agent.focused <==> was.agent.pane_id@ == pane_id@)
        &&& !was.current ==> later.agent.focused == was.agent.focused
    }) by {
        assert(after.attachment[i] == crate::herdr::poll::held_with_focus(s.attachment, pane_id@)[i]);
    }
}

/// A status or focus event is seen exactly where it changes something: the
/// generation moves if and only if a row or an attached pane differs after it,
/// and the time of the sample moves with it.
pub proof fn a_patch_is_seen_where_it_changes_something(s: EndpointState, event: Event, now: u64)
    requires
        event is Status || event is Focused,
    ensures
        ({
            let after = s.applied(event, now);
            let changed = after.agents != s.agents || after.attachment != s.attachment;
            &&& changed <==> after.generation != s.generation
            &&& changed && s.sampled_at is Some ==> after.sampled_at == Some(now)
            &&& !(changed && s.sampled_at is Some) ==> after.sampled_at == s.sampled_at
            &&& after.listing_due == s.listing_due
        }),
{
    let after = s.applied(event, now);
    match event {
        Event::Status { pane_id, status } => {
            a_status_event_sets_the_state_of_its_pane(s, pane_id, status, now);
            if s.status_event_changes(pane_id@, status) {
                if exists|i: int|
                    0 <= i < s.agents.len() && crate::herdr::poll::status_changes(
                        #[trigger] s.agents[i],
                        pane_id@,
                        status,
                    ) {
                    let i = choose|i: int|
                        0 <= i < s.agents.len() && crate::herdr::poll::status_changes(
                            #[trigger] s.agents[i],
                            pane_id@,
                            status,
                        );
                    assert(after.agents[i] != s.agents[i]);
                } else {
                    let i = choose|i: int|
                        0 <= i < s.attachment.len() && (#[trigger] s.attachment[i]).current
                            && crate::herdr::poll::status_changes(s.attachment[i].agent, pane_id@, status);
                    assert(after.attachment[i] != s.attachment[i]);
                }
            } else {
                assert forall|i: int| 0 <= i < s.agents.len() implies #[trigger] after.agents[i]
                    == s.agents[i] by {
                    assert(!crate::herdr::poll::status_changes(s.agents[i], pane_id@, status));
                }
                assert forall|i: int| 0 <= i < s.attachment.len() implies #[trigger] after.attachment[i]
                    == s.attachment[i] by {
                    assert(s.attachment[i].current ==> !crate::herdr::poll::status_changes(
                        s.attachment[i].agent,
                        pane_id@,
                        status,
                    ));
                }
                assert(after.agents =~= s.agents);
                assert(after.attachment =~= s.attachment);
            }
        },
        Event::Focused { pane_id } => {
            a_focus_event_focuses_its_pane_alone(s, pane_id, now);
            if s.focus_event_changes(pane_id@) {
                if exists|i: int|
                    0 <= i < s.agents.len() && (#[trigger] s.agents[i]).focused != (s.agents[i].pane_id@
                        == pane_id@) {
                    let i = choose|i: int|
                        0 <= i < s.agents.len() && (#[trigger] s.agents[i]).focused != (s.agents[i].pane_id@
                            == pane_id@);
                    assert(after.agents[i] != s.agents[i]);
                } else {
                    let i = choose|i: int|
                        0 <= i < s.attachment.len() && (#[trigger] s.attachment[i]).current
                            && s.attachment[i].agent.focused != (s.attachment[i].agent.pane_id@ == pane_id@);
                    assert(after.attachment[i] != s.attachment[i]);
                }
            } else {
                assert forall|i: int| 0 <= i < s.agents.len() implies #[trigger] after.agents[i]
                    == s.agents[i] by {
                    assert(s.agents[i].focused == (s.agents[i].pane_id@ == pane_id@));
                }
                assert forall|i: int| 0 <= i < s.attachment.len() implies #[trigger] after.attachment[i]
                    == s.attachment[i] by {
                    assert(s.attachment[i].current ==> s.attachment[i].agent.focused
                        == (s.attachment[i].agent.pane_id@ == pane_id@));
                }
                assert(after.agents =~= s.agents);
                assert(after.attachment =~= s.attachment);
            }
        },
        _ => {},
    }
}

/// A change with no patch of its own sends the reader back to the listing, at
/// once, and touches nothing that is shown.
pub proof fn a_change_asks_for_a_listing_now(s: EndpointState, now: u64)
    ensures
        s.applied(Event::Changed, now).listing_due == Some(now),
        s.applied(Event::Changed, now).agents == s.agents,
        s.applied(Event::Changed, now).attachment == s.attachment,
        s.applied(Event::Changed, now).generation == s.generation,
        s.applied(Event::Changed, now).sampled_at == s.sampled_at,
{
}

/// Events are taken in the order they came: reading one more is reading the
/// others and then it.
pub proof fn events_are_taken_in_order(s: EndpointState, events: Seq<Event>, last: Event, now: u64)
    ensures
        s.all_applied(events.push(last), now) == s.all_applied(events, now).applied(last, now),
        s.all_applied(Seq::<Event>::empty(), now) == s,
{
    assert(events.push(last).drop_last() =~= events);
}

/// A failed connection is tried again after half a second, then one, two and
/// at last five seconds, so a later try never waits less than an earlier one;
/// without a failure nothing is waited for.
pub proof fn a_retry_waits_longer_each_time(fewer: nat, more: nat)
    requires
        fewer <= more,
    ensures
        backoff(fewer) <= backoff(more),
        backoff(0) == 0,
        backoff(1) == 500 * 1_000_000,
        backoff(2) == 2 * backoff(1),
        backoff(3) == 2 * backoff(2),
        more >= 4 ==> backoff(more) == 5_000 * 1_000_000,
{
}

/// A connection that fails while it is made counts one failure more, and is
/// down until the wait for that many is over.
pub proof fn a_failed_connection_waits_its_backoff(s: EndpointState, failures: usize, now: u64)
    requires
        s.link == (Link::Connecting { failures }),
        failures < usize::MAX,
        countable(now),
    ensures
        ({
            let after = s.link_ended(None, now);
            &&& after.link matches Link::Down { failures: counted, retry_at } && counted == failures + 1 && retry_at
                == now + backoff(failures as nat + 1)
            &&& after.actions.last() == ActionView::WakeAfter(backoff(failures as nat + 1))
            &&& after.agents == s.agents && after.attachment == s.attachment && after.generation == s.generation
        }),
{
}

/// A link that is down is opened when its wait is over and not before.
pub proof fn a_link_is_opened_when_its_wait_is_over(
    s: EndpointState,
    failures: usize,
    retry_at: u64,
    messages: Seq<Message>,
    now: u64,
)
    requires
        s.link == (Link::Down { failures, retry_at }),
    ensures
        retry_at <= now ==> s.link_advanced(messages, now).link == (Link::Connecting { failures }),
        retry_at <= now ==> s.link_advanced(messages, now).actions == s.actions.push(ActionView::OpenLink),
        retry_at > now ==> s.link_advanced(messages, now) == s,
        s.link_advanced(messages, now).agents == s.agents,
        s.link_advanced(messages, now).listing_due == s.listing_due,
{
}

/// A side starts with no row and no link, and opens one at its first poll.
pub proof fn a_new_side_opens_its_link(side: SideView, now: u64, messages: Seq<Message>)
    ensures
        ({
            let s = EndpointState::fresh(side, now);
            &&& s.side == side
            &&& s.agents.len() == 0 && s.attachment.len() == 0 && s.actions.len() == 0
            &&& s.sampled_at is None && s.listing_due is None && s.blank_at is None && !s.pending
            &&& s.link_advanced(messages, now).link is Connecting
            &&& s.link_advanced(messages, now).actions == seq![ActionView::OpenLink]
        }),
{
    let s = EndpointState::fresh(side, now);
    assert(s.link_advanced(messages, now).actions =~= seq![ActionView::OpenLink]);
}

/// A link that comes up counts as an answer and lists at once.
pub proof fn a_link_that_comes_up_lists_at_once(s: EndpointState, now: u64)
    ensures
        s.link is Connecting ==> s.link_started(now).link == Link::Up,
        s.link_started(now).listing_due == Some(now),
        s.link_started(now).blank_at is None,
        s.link_started(now).agents == s.agents,
        s.link_started(now).generation == s.generation,
{
}

/// A link that goes down lets its rows stand for six seconds, unless they were
/// already on notice; it gives up the subscription, the inventory and the name
/// of the session at once.
pub proof fn a_link_that_goes_down_puts_its_rows_on_notice(s: EndpointState, now: u64)
    requires
        s.link is Up,
        countable(now),
    ensures
        ({
            let after = s.retired(now);
            &&& s.blank_at is None ==> after.blank_at == Some((now + 6 * 1_000_000_000) as u64)
            &&& s.blank_at is Some ==> after.blank_at == s.blank_at
            &&& after.status is None && after.inventory is None && after.session_name == Read::<String>::Unread
            &&& after.actions == s.actions.push(ActionView::WakeAfter(6_000_000_000))
            &&& after.agents == s.agents && after.attachment == s.attachment && after.generation == s.generation
            &&& after.sampled_at == s.sampled_at
        }),
{
}

/// When the notice is over the rows are gone, nothing counts as sampled, and
/// no attached pane is current any more, focused, or in a state. The sidebar is
/// told where it lost a row. Before that, nothing changes.
pub proof fn rows_are_gone_when_their_notice_is_over(s: EndpointState, now: u64)
    ensures
        ({
            let after = s.grace_expired(now);
            let over = s.blank_at is Some && s.blank_at->0 <= now;
            &&& !over ==> after == s
            &&& over ==> {
                &&& after.agents.len() == 0
                &&& after.sampled_at is None
                &&& after.generation != s.generation <==> s.agents.len() > 0
                &&& after.attachment.len() == s.attachment.len()
                &&& forall|i: int|
                    0 <= i < s.attachment.len() ==> {
                        let later = #[trigger] after.attachment[i];
                        &&& !later.current && later.agent.status is None && !later.agent.focused
                        &&& later.agent == (Pane { status: None, focused: false, ..s.attachment[i].agent })
                    }
            }
        }),
{
}

/// Where panes are attached and nothing is known of them yet, the rows are what
/// is known, current if there is a sample.
pub proof fn the_rows_seed_what_is_known_of_attached_panes(s: EndpointState)
    ensures
        s.seeded(false) == s,
        s.attachment.len() > 0 ==> s.seeded(true) == s,
        s.attachment.len() == 0 ==> {
            &&& s.seeded(true).attachment.len() == s.agents.len()
            &&& forall|i: int|
                0 <= i < s.agents.len() ==> {
                    let known = #[trigger] s.seeded(true).attachment[i];
                    &&& known.agent == s.agents[i]
                    &&& known.current <==> s.sampled_at is Some
                }
        },
        s.seeded(true).agents == s.agents,
{
}

/// The settings that were read are taken over and shown; where none were found
/// there is no detach chord and the indicators are dots.
pub proof fn settings_are_taken_over_as_read(s: EndpointState, read: Option<Settings>)
    ensures
        s.settings == Read::<Settings>::Pending ==> {
            let after = s.settings_landed(Landed::Value(read));
            &&& read matches Some(found) ==> after.settings == Read::Done(found)
            &&& read is None ==> after.settings == Read::Done(Settings { detach: None, indicators: Indicators::Dots })
            &&& after.generation != s.generation
        },
        s.settings != Read::<Settings>::Pending ==> s.settings_landed(Landed::Value(read)) == s,
        s.settings_landed(Landed::Waiting) == s,
        s.settings == Read::<Settings>::Pending ==> s.settings_landed(Landed::Panicked).settings == Read::Done(
            Settings { detach: None, indicators: Indicators::Dots },
        ),
{
}

/// The name of the session is taken over as read, and read again where none
/// was found.
pub proof fn a_session_name_is_taken_over_as_read(s: EndpointState, name: String)
    requires
        s.session_name == Read::<String>::Pending,
    ensures
        s.session_landed(Landed::Value(Some(name))).session_name == Read::Done(name),
        s.session_landed(Landed::Value(None)).session_name == Read::<String>::Unread,
        s.session_landed(Landed::Panicked).session_name == Read::<String>::Unread,
        s.session_landed(Landed::Waiting) == s,
{
}

/// Settings and session name are each read once: asked for where they are
/// unread, settings first, and not asked for again while pending or done.
pub proof fn each_read_is_started_once(s: EndpointState)
    ensures
        ({
            let after = s.reads_started();
            let settings = s.settings == Read::<Settings>::Unread;
            let name = s.session_name == Read::<String>::Unread;
            &&& after.settings == if settings {
                Read::<Settings>::Pending
            } else {
                s.settings
            }
            &&& after.session_name == if name {
                Read::<String>::Pending
            } else {
                s.session_name
            }
            &&& settings && name ==> after.actions == s.actions.push(ActionView::ReadSettings).push(
                ActionView::ReadSessionName,
            )
            &&& settings && !name ==> after.actions == s.actions.push(ActionView::ReadSettings)
            &&& !settings && name ==> after.actions == s.actions.push(ActionView::ReadSessionName)
            &&& !settings && !name ==> after == s
        }),
{
}

/// A listing that lands becomes the rows: all of it, or, where only agents are
/// shown and panes were listed, those of its panes that hold an agent, in
/// order. The sample is as old as the reply.
pub proof fn a_listing_becomes_the_rows(s: EndpointState, reply: ReplyView, display: Listing, attached: bool)
    requires
        reply.inventory is Some ==> reply.inventory->0 is Ok,
    ensures
        ({
            let after = s.adopted(reply, display, attached);
            &&& after.sampled_at == Some(reply.sampled_at)
            &&& after.blank_at is None
            &&& display is Panes || reply.listing is Agents ==> after.agents == reply.agents
            &&& display is Agents && reply.listing is Panes ==> {
                &&& after.agents == reply.agents.filter(|pane: Pane| pane.status is Some)
                &&& forall|i: int| 0 <= i < after.agents.len() ==> (#[trigger] after.agents[i]).status is Some
            }
        }),
{
    let after = s.adopted(reply, display, attached);
    let holds = |pane: Pane| pane.status is Some;
    if display is Agents && reply.listing is Panes {
        assert forall|i: int| 0 <= i < after.agents.len() implies (#[trigger] after.agents[i]).status is Some by {
            reply.agents.lemma_filter_pred(holds, i);
        }
    }
}

/// A listing is told to the sidebar where it shows: where it has more or fewer
/// rows, or a row that renders otherwise.
pub proof fn a_listing_is_seen_where_it_shows(s: EndpointState, reply: ReplyView, display: Listing, attached: bool)
    requires
        reply.inventory is Some ==> reply.inventory->0 is Ok,
    ensures
        ({
            let after = s.adopted(reply, display, attached);
            let same = s.agents.len() == after.agents.len() && forall|i: int|
                0 <= i < s.agents.len() ==> {
                    let was = (#[trigger] s.agents[i])@;
                    let later = after.agents[i]@;
                    was.terminal_id == later.terminal_id && was.pane_id == later.pane_id && was.status == later.status
                        && was.kind == later.kind && was.title == later.title && was.focused == later.focused && was.cwd
                        == later.cwd && was.foreground_cwd == later.foreground_cwd
                };
            after.generation == s.generation <==> same
        }),
{
    let after = s.adopted(reply, display, attached);
    if crate::herdr::poll::rows_differ(s.agents, after.agents) {
        if s.agents.len() == after.agents.len() {
            let i = choose|i: int|
                0 <= i < s.agents.len() && crate::herdr::poll::row_differs(
                    (#[trigger] s.agents[i])@,
                    after.agents[i]@,
                );
            assert(crate::herdr::poll::row_differs(s.agents[i]@, after.agents[i]@));
        }
    } else {
        assert forall|i: int| 0 <= i < s.agents.len() implies !crate::herdr::poll::row_differs(
            (#[trigger] s.agents[i])@,
            after.agents[i]@,
        ) by {}
    }
}

proof fn no_terminal_is_found(list: Seq<PaneMetadata>, terminal_id: Seq<char>)
    ensures
        match terminal_at(list, terminal_id) {
            Some(at) => 0 <= at < list.len() && list[at].agent.terminal_id@ == terminal_id && forall|i: int|
                0 <= i < at ==> (#[trigger] list[i]).agent.terminal_id@ != terminal_id,
            None => forall|i: int| 0 <= i < list.len() ==> (#[trigger] list[i]).agent.terminal_id@ != terminal_id,
        },
    decreases list.len(),
{
    if list.len() > 0 {
        let front = list.drop_last();
        no_terminal_is_found(front, terminal_id);
        assert forall|i: int| 0 <= i < front.len() implies #[trigger] list[i] == front[i] by {}
    }
}

/// What is known of an attached pane after a listing, over what was kept.
pub open spec fn known_after(kept: Seq<PaneMetadata>, agents: Seq<Pane>, after: Seq<PaneMetadata>) -> bool {
    &&& after.len() >= kept.len()
    &&& forall|i: int|
        0 <= i < after.len() ==> {
            ||| i < kept.len() && (#[trigger] after[i]) == kept[i]
            ||| after[i].current && agents.contains(after[i].agent)
        }
    &&& forall|i: int|
        0 <= i < kept.len() ==> (#[trigger] after[i]).agent.terminal_id@ == kept[i].agent.terminal_id@
    &&& forall|k: int|
        0 <= k < agents.len() ==> exists|i: int|
            0 <= i < after.len() && (#[trigger] after[i]).current && after[i].agent.terminal_id@ == (
            #[trigger] agents[k]).terminal_id@
    &&& agents.len() > 0 ==> exists|i: int|
        0 <= i < after.len() && (#[trigger] after[i]).current && after[i].agent == agents.last()
}

proof fn refreshing_keeps_the_rest(kept: Seq<PaneMetadata>, agents: Seq<Pane>)
    ensures
        known_after(kept, agents, all_refreshed(kept, agents)),
    decreases agents.len(),
{
    if agents.len() > 0 {
        let front = agents.drop_last();
        let agent = agents.last();
        let was = all_refreshed(kept, front);
        refreshing_keeps_the_rest(kept, front);
        no_terminal_is_found(was, agent.terminal_id@);
        let after = refreshed(was, agent);
        let at = match terminal_at(was, agent.terminal_id@) {
            Some(at) => at,
            None => was.len() as int,
        };
        assert(after[at] == (PaneMetadata { agent, current: true }));
        assert forall|i: int| 0 <= i < after.len() implies {
            ||| i < kept.len() && (#[trigger] after[i]) == kept[i]
            ||| after[i].current && agents.contains(after[i].agent)
        } by {
            if i == at {
                assert(agents[agents.len() - 1] == agent);
            } else {
                assert(after[i] == was[i]);
                if !(i < kept.len() && was[i] == kept[i]) {
                    assert(front.contains(was[i].agent));
                    let k = choose|k: int| 0 <= k < front.len() && front[k] == was[i].agent;
                    assert(agents[k] == front[k]);
                }
            }
        }
        assert forall|i: int| 0 <= i < kept.len() implies (#[trigger] after[i]).agent.terminal_id@
            == kept[i].agent.terminal_id@ by {
            assert(was[i].agent.terminal_id@ == kept[i].agent.terminal_id@);
        }
        assert forall|k: int| 0 <= k < agents.len() implies exists|i: int|
            0 <= i < after.len() && (#[trigger] after[i]).current && after[i].agent.terminal_id@ == (
            #[trigger] agents[k]).terminal_id@ by {
            if k < front.len() {
                assert(agents[k] == front[k]);
                let i = choose|i: int|
                    0 <= i < was.len() && (#[trigger] was[i]).current && was[i].agent.terminal_id@
                        == front[k].terminal_id@;
                if i == at {
                    assert(after[i].current);
                } else {
                    assert(after[i] == was[i]);
                }
                assert(after[i].current && after[i].agent.terminal_id@ == agents[k].terminal_id@);
            } else {
                assert(after[at].current);
            }
        }
    } else {
        assert forall|i: int| 0 <= i < kept.len() implies (i < kept.len() && (#[trigger] all_refreshed(kept, agents)[i])
            == kept[i]) by {}
    }
}

/// A complete listing of panes settles what is known of the attached ones: a
/// pane it holds is current, with what the listing says of it; one that only
/// the inventory holds stays, stale; and one that neither holds is dropped.
pub proof fn an_inventory_settles_the_attached_panes(s: EndpointState, reply: ReplyView, display: Listing, ids: Seq<Seq<char>>)
    requires
        reply.inventory == Some(Ok::<Seq<Seq<char>>, PollErrorView>(ids)),
    ensures
        ({
            let after = s.adopted(reply, display, true);
            let kept = s.attachment.filter(|pane: PaneMetadata| ids.contains(pane.agent.terminal_id@));
            &&& after.inventory == Some((reply.sampled_at, ids))
            &&& known_after(all_stale(kept), reply.agents, after.attachment)
        }),
{
    let kept = members_of(s.attachment, ids);
    refreshing_keeps_the_rest(all_stale(kept), reply.agents);
}

/// A stale pane is what it was, but for its state, its focus and its being
/// current, which are gone.
pub proof fn a_stale_pane_is_no_longer_current(list: Seq<PaneMetadata>, i: int)
    requires
        0 <= i < list.len(),
    ensures
        all_stale(list).len() == list.len(),
        ({
            let later = all_stale(list)[i];
            &&& !later.current && later.agent.status is None && !later.agent.focused
            &&& later.agent == (Pane { status: None, focused: false, ..list[i].agent })
        }),
{
}

/// An inventory that could not be read is no inventory: nothing counts as
/// sampled or current, and the failure is told.
pub proof fn a_bad_inventory_is_a_failure(s: EndpointState, reply: ReplyView, display: Listing, error: PollErrorView)
    requires
        reply.inventory == Some(Err::<Seq<Seq<char>>, PollErrorView>(error)),
    ensures
        ({
            let after = s.adopted(reply, display, true);
            &&& after.inventory is None
            &&& after.sampled_at is None
            &&& after.attachment == all_stale(s.attachment)
            &&& after.reach == s.reach.failed(error)
        }),
{
}

/// Without an inventory the attached panes go stale, and with none attached
/// nothing is known of any.
pub proof fn without_an_inventory_nothing_is_current(s: EndpointState, reply: ReplyView, display: Listing)
    requires
        reply.inventory is None,
    ensures
        s.adopted(reply, display, true).attachment == all_stale(s.attachment),
        s.adopted(reply, display, true).inventory is None,
        s.adopted(reply, display, false).attachment.len() == 0,
        s.adopted(reply, display, false).inventory is None,
{
}

/// An inventory is read where panes are attached and were listed, and is then
/// the terminals the reply names, each once and in order, or the reply is bad.
pub proof fn an_inventory_is_the_terminals_of_the_reply(reply: Option<crate::json::Tree>, listing: Listing, attached: bool)
    ensures
        !attached || listing is Agents ==> reply_inventory(reply, listing, attached) is None,
        attached && listing is Panes ==> match inventory_ids(reply) {
            Some(named) => reply_inventory(reply, listing, attached) matches Some(Ok(ids)) && (forall|id: Seq<char>|
                ids.contains(id) <==> named.contains(id)) && crate::text::strictly_ordered(ids),
            None => reply_inventory(reply, listing, attached) == Some(
                Err::<Seq<Seq<char>>, PollErrorView>(PollErrorView::Absent("invalid_pane_inventory"@)),
            ),
        },
{
    if let Some(named) = inventory_ids(reply) {
        a_sorted_set_is_the_list_in_order(named);
        assert forall|id: Seq<char>| sorted_set(named).contains(id) <==> named.contains(id) by {}
    }
}

/// A listing that fails while the link is up is tried again in two seconds, and
/// drops the events that waited for it.
pub proof fn a_failed_listing_is_tried_again(s: EndpointState, error: PollErrorView, now: u64)
    requires
        s.link is Up,
        countable(now),
    ensures
        s.listing_failed(error, now).listing_due == Some((now + 2 * 1_000_000_000) as u64),
        s.listing_failed(error, now).actions.last() == ActionView::WakeAfter(2_000_000_000),
        s.listing_failed(error, now).held.len() == 0,
        s.listing_failed(error, now).inventory is None,
{
}

/// A listing is started where the link is up, none is running and one is due;
/// a change of what is listed makes one due. Panes are listed where any is
/// attached, and otherwise what is shown.
pub proof fn a_listing_starts_when_it_is_due(s: EndpointState, listing: Listing, attached: bool, now: u64)
    requires
        s.link is Up,
        !s.pending,
        s.listed_for != Some((listing, attached)) || (s.listing_due is Some && s.listing_due->0 <= now),
    ensures
        ({
            let after = s.due_started(listing, attached, now);
            &&& after.pending
            &&& after.listing_due is None
            &&& after.listed_for == Some((listing, attached))
            &&& after.actions == s.actions.push(
                ActionView::StartListing {
                    listing: if attached {
                        Listing::Panes
                    } else {
                        listing
                    },
                    attached,
                },
            )
            &&& after.agents == s.agents && after.generation == s.generation && after.status == s.status
        }),
{
}

/// Nothing is listed before it is due, while a listing runs, or without a link.
pub proof fn a_listing_waits_until_it_is_due(s: EndpointState, listing: Listing, attached: bool, now: u64)
    requires
        !(s.link is Up) || s.pending || (s.listed_for == Some((listing, attached)) && (s.listing_due is None
            || s.listing_due->0 > now)),
    ensures
        s.due_started(listing, attached, now).pending == s.pending,
        s.due_started(listing, attached, now).listing_due == s.listing_due,
        ({
            let asked = s.due_started(listing, attached, now).actions;
            asked == s.actions || asked == s.actions.push(ActionView::OpenStatus(s.watched()))
        }),
{
}

proof fn the_ids_of_agents(list: Seq<Pane>, id: Seq<char>)
    ensures
        agent_ids(list).contains(id) <==> exists|i: int|
            0 <= i < list.len() && (#[trigger] list[i]).status is Some && list[i].pane_id@ == id,
    decreases list.len(),
{
    if list.len() > 0 {
        let front = list.drop_last();
        let last = list.len() - 1;
        the_ids_of_agents(front, id);
        if agent_ids(front).contains(id) {
            let i = choose|i: int| 0 <= i < front.len() && (#[trigger] front[i]).status is Some && front[i].pane_id@ == id;
            assert(list[i] == front[i]);
            let k = choose|k: int| 0 <= k < agent_ids(front).len() && agent_ids(front)[k] == id;
            assert(agent_ids(list)[k] == id);
        }
        if list[last].status is Some && list[last].pane_id@ == id {
            assert(agent_ids(list)[agent_ids(front).len() as int] == id);
        }
        if exists|i: int| 0 <= i < list.len() && (#[trigger] list[i]).status is Some && list[i].pane_id@ == id {
            let i = choose|i: int| 0 <= i < list.len() && (#[trigger] list[i]).status is Some && list[i].pane_id@ == id;
            if i < last {
                assert(front[i] == list[i]);
            }
        }
        if agent_ids(list).contains(id) && !agent_ids(front).contains(id) {
            let k = choose|k: int| 0 <= k < agent_ids(list).len() && agent_ids(list)[k] == id;
            if k < agent_ids(front).len() {
                assert(agent_ids(front)[k] == id);
            }
            assert(list[last].status is Some && list[last].pane_id@ == id);
        }
    }
}

proof fn the_ids_of_held_agents(list: Seq<PaneMetadata>, id: Seq<char>)
    ensures
        held_ids(list).contains(id) <==> exists|i: int|
            0 <= i < list.len() && (#[trigger] list[i]).current && list[i].agent.status is Some
                && list[i].agent.pane_id@ == id,
    decreases list.len(),
{
    if list.len() > 0 {
        let front = list.drop_last();
        let last = list.len() - 1;
        the_ids_of_held_agents(front, id);
        if held_ids(front).contains(id) {
            let i = choose|i: int|
                0 <= i < front.len() && (#[trigger] front[i]).current && front[i].agent.status is Some
                    && front[i].agent.pane_id@ == id;
            assert(list[i] == front[i]);
            let k = choose|k: int| 0 <= k < held_ids(front).len() && held_ids(front)[k] == id;
            assert(held_ids(list)[k] == id);
        }
        if list[last].current && list[last].agent.status is Some && list[last].agent.pane_id@ == id {
            assert(held_ids(list)[held_ids(front).len() as int] == id);
        }
        if exists|i: int|
            0 <= i < list.len() && (#[trigger] list[i]).current && list[i].agent.status is Some
                && list[i].agent.pane_id@ == id {
            let i = choose|i: int|
                0 <= i < list.len() && (#[trigger] list[i]).current && list[i].agent.status is Some
                    && list[i].agent.pane_id@ == id;
            if i < last {
                assert(front[i] == list[i]);
            }
        }
        if held_ids(list).contains(id) && !held_ids(front).contains(id) {
            let k = choose|k: int| 0 <= k < held_ids(list).len() && held_ids(list)[k] == id;
            if k < held_ids(front).len() {
                assert(held_ids(front)[k] == id);
            }
            assert(list[last].current && list[last].agent.status is Some && list[last].agent.pane_id@ == id);
        }
    }
}

/// The panes whose states are followed are those of the listed agents and of
/// the current attached ones, and no others.
pub proof fn the_panes_that_are_followed(s: EndpointState, id: Seq<char>)
    ensures
        s.watched().contains(id) <==> {
            ||| exists|i: int| 0 <= i < s.agents.len() && (#[trigger] s.agents[i]).status is Some && s.agents[i].pane_id@ == id
            ||| exists|i: int|
                0 <= i < s.attachment.len() && (#[trigger] s.attachment[i]).current && s.attachment[i].agent.status
                    is Some && s.attachment[i].agent.pane_id@ == id
        },
{
    let a = agent_ids(s.agents);
    let b = held_ids(s.attachment);
    the_ids_of_agents(s.agents, id);
    the_ids_of_held_agents(s.attachment, id);
    a_sorted_set_is_the_list_in_order(a + b);
    if (a + b).contains(id) {
        let k = choose|k: int| 0 <= k < (a + b).len() && (a + b)[k] == id;
        if k < a.len() {
            assert(a[k] == id);
        } else {
            assert(b[k - a.len()] == id);
        }
    }
    if a.contains(id) {
        let k = choose|k: int| 0 <= k < a.len() && a[k] == id;
        assert((a + b)[k] == id);
    }
    if b.contains(id) {
        let k = choose|k: int| 0 <= k < b.len() && b[k] == id;
        assert((a + b)[a.len() + k] == id);
    }
}

/// A subscription that ends is gone; one that ends with a reason counts as
/// refused and is told, and one that ends without may be asked for again.
pub proof fn a_subscription_that_ends(s: EndpointState, reason: Option<PollErrorView>)
    ensures
        s.status_ended(reason).status is None,
        reason is Some ==> s.status_ended(reason).status_refused == s.status,
        reason is None ==> s.status_ended(reason).status_refused == s.status_refused,
        reason matches Some(error) ==> s.status_ended(reason).actions == s.actions.push(
            ActionView::SayStatusRefused(crate::herdr::model::error_code_of(error)),
        ),
        reason is None ==> s.status_ended(reason).actions == s.actions,
        s.status_ended(reason).agents == s.agents,
{
}

/// An event is applied at once; while a listing runs it is also kept, to be
/// applied to what lands, unless it only asks for a listing.
pub proof fn an_event_is_kept_while_a_listing_runs(s: EndpointState, event: Event, now: u64)
    ensures
        s.received(event, now).agents == s.applied(event, now).agents,
        s.received(event, now).attachment == s.applied(event, now).attachment,
        s.received(event, now).generation == s.applied(event, now).generation,
        s.received(event, now).listing_due == s.applied(event, now).listing_due,
        s.pending && !(event is Changed) ==> s.received(event, now).held == s.held.push(event),
        !s.pending || event is Changed ==> s.received(event, now).held == s.held,
{
}

/// What was kept is applied in order to what landed, and kept no longer.
pub proof fn what_was_kept_is_replayed(s: EndpointState, now: u64)
    ensures
        s.replayed(now) == (EndpointState { held: Seq::empty(), ..s }).all_applied(s.held, now),
        s.held.len() == 0 ==> s.replayed(now).agents == s.agents,
{
}

/// Nothing has come of what was started.
pub open spec fn nothing_landed(inputs: Inputs) -> bool {
    inputs.settings is Waiting && inputs.session_name is Waiting && inputs.listing is Waiting
}

/// An event on the link is in the rows when the poll that took it is over, and
/// so is one on the subscription.
pub proof fn an_event_reaches_the_rows(
    s: EndpointState,
    listing: Listing,
    attached: bool,
    inputs: Inputs,
    event: Event,
    now: u64,
)
    requires
        s.link is Up,
        nothing_landed(inputs),
        (inputs.link@ == seq![Message::Event(event)] && inputs.status@.len() == 0) || (inputs.link@.len() == 0
            && inputs.status@ == seq![Message::Event(event)] && s.status is Some),
    ensures
        s.polled(listing, attached, inputs, now).agents == s.applied(event, now).agents,
        attached && s.attachment.len() > 0 ==> s.polled(listing, attached, inputs, now).attachment == s.applied(
            event,
            now,
        ).attachment,
{
    let s0 = s.seeded(attached);
    assert(seq![Message::Event(event)].drop_first() =~= Seq::<Message>::empty());
    assert(seq![Message::Event(event)][0] == Message::Event(event));
    reveal_with_fuel(EndpointState::link_told, 2);
    reveal_with_fuel(EndpointState::status_told, 2);
}

/// A message is taken before those that follow it, and the end of a stream is
/// the last of it.
pub proof fn messages_are_taken_in_order(s: EndpointState, first: Message, rest: Seq<Message>, now: u64)
    ensures
        first matches Message::Event(event) ==> s.link_told(seq![first] + rest, now) == s.received(event, now).link_told(
            rest,
            now,
        ) && s.status_told(seq![first] + rest, now) == s.received(event, now).status_told(rest, now),
        first is Started ==> s.link_told(seq![first] + rest, now) == s.link_started(now).link_told(rest, now),
        first == Message::Ended(None) ==> s.link_told(seq![first] + rest, now) == s.link_ended(None, now)
            && s.status_told(seq![first] + rest, now) == s.status_ended(None),
        first matches Message::Ended(Some(error)) ==> s.link_told(seq![first] + rest, now) == s.link_ended(
            Some(error@),
            now,
        ) && s.status_told(seq![first] + rest, now) == s.status_ended(Some(error@)),
{
    let all = seq![first] + rest;
    assert(all.drop_first() =~= rest);
    assert(all[0] == first);
}

/// A listing that lands is what the poll that took it shows, with the events
/// that came while it ran.
pub proof fn a_landed_listing_reaches_the_rows(
    s: EndpointState,
    listing: Listing,
    attached: bool,
    inputs: Inputs,
    reply: crate::herdr::poll::ListingReply,
    now: u64,
)
    requires
        s.link is Up,
        s.pending,
        inputs.settings is Waiting,
        inputs.session_name is Waiting,
        inputs.listing == Landed::Value(Ok::<crate::herdr::poll::ListingReply, crate::herdr::model::PollError>(reply)),
        inputs.link@.len() == 0,
        inputs.status@.len() == 0,
    ensures
        s.polled(listing, attached, inputs, now).agents == s.seeded(attached).adopted(
            reply@,
            listing,
            attached,
        ).replayed(now).agents,
        s.held.len() == 0 && (listing is Panes || reply.listing is Agents) ==> s.polled(
            listing,
            attached,
            inputs,
            now,
        ).agents == reply.agents@,
{
    reveal_with_fuel(EndpointState::link_told, 2);
    reveal_with_fuel(EndpointState::status_told, 2);
    let adopted = s.seeded(attached).adopted(reply@, listing, attached);
    replay_keeps(EndpointState { held: Seq::empty(), ..adopted }, adopted.held, now);
    reveal_with_fuel(EndpointState::all_applied, 2);
}

/// What lands of the settings and of the session's name is there when the poll
/// that took it is over.
pub proof fn what_lands_is_taken_over(s: EndpointState, listing: Listing, attached: bool, inputs: Inputs, now: u64)
    requires
        s.link is Up,
        !s.pending,
        inputs.link@.len() == 0,
        inputs.status@.len() == 0,
    ensures
        s.polled(listing, attached, inputs, now).settings == s.settings_landed(inputs.settings).settings,
        s.polled(listing, attached, inputs, now).session_name == s.session_landed(inputs.session_name).session_name,
        s.polled(listing, attached, inputs, now).agents == s.agents,
{
    reveal_with_fuel(EndpointState::link_told, 2);
    reveal_with_fuel(EndpointState::status_told, 2);
}

/// A listing that came back is no longer waited for, however it came back; one
/// that failed is told, and asks for the name of the session anew; one whose
/// reader died counts as a side without a herdr.
pub proof fn a_listing_that_came_back_is_waited_for_no_more(
    s: EndpointState,
    reply: ReplyView,
    error: PollErrorView,
    display: Listing,
    attached: bool,
    now: u64,
)
    ensures
        s.pending ==> {
            let well = s.listing_landed(Landed::Value(Ok(reply)), display, attached, now);
            let badly = s.listing_landed(Landed::Value(Err(error)), display, attached, now);
            let died = s.listing_landed(Landed::Panicked, display, attached, now);
            &&& !well.pending && !badly.pending && !died.pending
            &&& badly.session_name == Read::<String>::Unread
            &&& badly.reach == s.reach.failed(error)
            &&& died.reach == s.reach.failed(PollErrorView::Absent("poll_panicked"@))
            &&& s.listing_landed(Landed::Waiting, display, attached, now) == s
            &&& well.held.len() == 0
        },
        !s.pending ==> s.listing_landed(Landed::Value(Ok(reply)), display, attached, now) == s,
{
    let adopted = s.adopted(reply, display, attached);
    let emptied = EndpointState { held: Seq::empty(), ..adopted };
    replaying_keeps_nothing(emptied, adopted.held, now);
}

proof fn replaying_keeps_nothing(s: EndpointState, events: Seq<Event>, now: u64)
    ensures
        s.all_applied(events, now).held == s.held,
    decreases events.len(),
{
    if events.len() > 0 {
        replaying_keeps_nothing(s, events.drop_last(), now);
    }
}

/// Without an attached pane nothing is kept of any; with one, all of it.
pub proof fn what_is_kept_for_attached_panes(s: EndpointState)
    ensures
        s.detached(true) == s,
        s.detached(false).attachment.len() == 0,
        s.detached(false).inventory is None,
        s.detached(false).agents == s.agents,
        s.detached(false).sampled_at == s.sampled_at,
{
}

/// The states of the followed panes are subscribed to where that list is
/// neither subscribed to nor refused; an empty list ends the subscription.
pub proof fn when_states_are_subscribed_to(s: EndpointState)
    ensures
        ({
            let ids = s.watched();
            let after = s.status_synced();
            &&& s.status == Some(ids) || s.status_refused == Some(ids) ==> after == s
            &&& s.status != Some(ids) && s.status_refused != Some(ids) && ids.len() == 0 ==> after.status is None
                && after.actions == s.actions
            &&& s.status != Some(ids) && s.status_refused != Some(ids) && ids.len() > 0 ==> after.status == Some(ids)
                && after.actions == s.actions.push(ActionView::OpenStatus(ids))
            &&& after.agents == s.agents && after.status_refused == s.status_refused
        }),
{
}

/// A failure is counted against the side, warned of once, unless it is only
/// that no server runs, and the side is said to be given up on where it is.
pub proof fn what_is_said_of_a_failure(s: EndpointState, error: PollErrorView)
    ensures
        ({
            let code = crate::herdr::model::error_code_of(error);
            let novel = s.reach.last_error != Some(code);
            let gone = error is Absent && !s.reach.ever_answered;
            let after = s.failure_said(error);
            &&& after.reach == s.reach.failed(error)
            &&& !novel ==> after.actions == s.actions
            &&& novel && code != "server_not_running"@ && !gone ==> after.actions == s.actions.push(
                ActionView::Warn(code),
            )
            &&& novel && code != "server_not_running"@ && gone ==> after.actions == s.actions.push(
                ActionView::Warn(code),
            ).push(ActionView::SayGivenUp(code))
            &&& novel && code == "server_not_running"@ && !gone ==> after.actions == s.actions
            &&& after.agents == s.agents && after.generation == s.generation
        }),
{
}

/// A side that is down is tried again at the moment given, with its failures
/// still counted; one that is not down is left alone.
pub proof fn reconnecting_keeps_the_failures(s: EndpointState, now: u64, failures: usize, retry_at: u64)
    ensures
        s.reconnected(now).agents == s.agents,
        s.reconnected(now).attachment == s.attachment,
        s.reconnected(now).status == s.status,
        s.link == (Link::Down { failures, retry_at }) ==> s.reconnected(now).link == (Link::Down {
            failures,
            retry_at: now,
        }),
        !(s.link is Down) ==> s.reconnected(now) == s,
{
}

/// A side that begins anew is due at once with no failure and no status, and
/// keeps its rows; one that was given up stays so.
pub proof fn restarting_forgets_the_failures(s: EndpointState, now: u64)
    ensures
        s.link is Abandoned ==> s.restarted(now) == s,
        !(s.link is Abandoned) ==> {
            let after = s.restarted(now);
            &&& after.link == (Link::Down { failures: 0, retry_at: now })
            &&& after.status is None
            &&& after.agents == s.agents && after.attachment == s.attachment
            &&& after.settings == s.settings && after.session_name == s.session_name
            &&& after.inventory == s.inventory && after.generation == s.generation
            &&& after.reconnected(now) == after
        },
{
}

} // verus!

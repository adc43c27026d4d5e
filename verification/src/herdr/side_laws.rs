//! What is asked of a side, how its failures are counted, and which sides
//! there are.

use vstd::prelude::*;

#[allow(unused_imports)]
use crate::herdr::endpoints::{
    followed, joined_by, lists_now, set_changes, set_generation, staying, stays, total, unlisted,
};
#[allow(unused_imports)]
use crate::herdr::interval::{landed, waited, IntervalInputs, IntervalState};
#[allow(unused_imports)]
use crate::herdr::model::{
    attach_words, error_code_of, focus_words, herdr_key, listing_words, opens_directly, pane_focus_words,
    side_can_attach, unattached_panes, AttachMode, Listing, PollErrorView, ReachView,
};
#[allow(unused_imports)]
use crate::herdr::poll::{ActionView, EndpointState, Landed, Read, ReplyView};
#[allow(unused_imports)]
use crate::multiplexer::model::{MultiplexerKind, PaneKeyView, PaneView};
#[allow(unused_imports)]
use crate::side::{Platform, SideView};

verus! {

/// An answer wipes out every failure and is remembered for good.
pub proof fn an_answer_wipes_out_the_failures(reach: ReachView, error: PollErrorView)
    ensures
        reach.answered().ever_answered,
        !reach.answered().failing,
        !reach.answered().abandoned(),
        reach.answered().should_retry(0),
        reach.answered().last_error is None,
        !ReachView::fresh().ever_answered,
        !ReachView::fresh().failing,
        ReachView::fresh().novel(error),
{
}

/// A side is given up on where it failed without a herdr in it and never
/// answered, and on no other account: a server that refuses is tried again.
pub proof fn a_side_is_given_up_on_without_a_herdr(reach: ReachView, error: PollErrorView)
    ensures
        reach.failed(error).failing,
        reach.failed(error).abandoned() <==> error is Absent && !reach.ever_answered,
        reach.failed(error).ever_answered == reach.ever_answered,
        reach.failed(error).last_error == Some(error_code_of(error)),
        error matches PollErrorView::Server(code) ==> error_code_of(error) == code,
        error matches PollErrorView::Absent(code) ==> error_code_of(error) == code,
{
}

/// A side that fails is asked again after thirty seconds, unless it was given
/// up on; one that does not is asked whenever it is due.
pub proof fn a_failing_side_is_asked_every_half_minute(reach: ReachView, since: int)
    ensures
        !reach.failing ==> reach.should_retry(since),
        reach.failing && reach.abandoned() ==> !reach.should_retry(since),
        reach.failing && !reach.abandoned() ==> (reach.should_retry(since) <==> since >= 30 * 1_000_000_000),
{
}

/// A pane's key is herdr's, on the pane's side, with the pane's terminal.
pub proof fn a_pane_is_known_by_its_terminal(side: SideView, pane: PaneView)
    ensures
        herdr_key(side, pane).multiplexer == MultiplexerKind::Herdr,
        herdr_key(side, pane).side == side,
        herdr_key(side, pane).terminal_id == pane.terminal_id,
{
}

/// The panes left to attach to are those no session has claimed: each of them
/// is a listed one, and every unclaimed one is there.
pub proof fn the_unclaimed_panes_are_left(agents: Seq<PaneView>, side: SideView, claimed: Seq<PaneKeyView>, pane: PaneView)
    ensures
        unattached_panes(agents, side, claimed).contains(pane) <==> agents.contains(pane) && !claimed.contains(
            herdr_key(side, pane),
        ),
{
    broadcast use vstd::seq_lib::group_filter_ensures;

    let free = |a: PaneView| !claimed.contains(herdr_key(side, a));
    let left = agents.filter(free);
    if left.contains(pane) {
        let i = choose|i: int| 0 <= i < left.len() && left[i] == pane;
        agents.lemma_filter_pred(free, i);
        agents.lemma_filter_contains_rev(free, pane);
    }
    if agents.contains(pane) && free(pane) {
        let i = choose|i: int| 0 <= i < agents.len() && agents[i] == pane;
        agents.lemma_filter_contains(free, i);
    }
}

/// A pane can be attached to in WSL everywhere, and natively on Unix only.
pub proof fn where_a_pane_can_be_attached_to(distro: Seq<char>)
    ensures
        side_can_attach(SideView::Wsl(distro), Platform::Windows),
        side_can_attach(SideView::Wsl(distro), Platform::Unix),
        side_can_attach(SideView::Native, Platform::Unix),
        !side_can_attach(SideView::Native, Platform::Windows),
{
}

/// A pane opens directly exactly where it holds an agent, agents are attached
/// to directly, and its side allows it.
pub proof fn when_a_pane_opens_directly(side: SideView, mode: AttachMode, has_agent: bool, platform: Platform)
    ensures
        opens_directly(side, mode, has_agent, platform) <==> has_agent && mode is Agent && (side is Wsl
            || platform is Unix),
{
}

/// An agent is focused as an agent, by its pane. A pane without one is focused
/// by its tab, where that is known.
pub proof fn what_is_focused(has_agent: bool, tab: Seq<char>, pane_id: Seq<char>)
    ensures
        focus_words(true, Some(tab), pane_id) == seq!["agent"@, "focus"@, pane_id],
        focus_words(has_agent, None, pane_id) == seq!["agent"@, "focus"@, pane_id],
        focus_words(false, Some(tab), pane_id) == seq!["tab"@, "focus"@, tab],
{
}

/// The time since an attempt is what has passed since it, and none where the
/// clock went back; before the first attempt a whole interval has passed.
pub proof fn the_time_since_an_attempt(at: u64, interval: u64, now: u64)
    ensures
        at <= now ==> waited(Some(at), interval, now) == now - at,
        at > now ==> waited(Some(at), interval, now) == 0,
        waited(None, interval, now) == interval,
{
}

/// A side that is due is asked at once for panes where any is attached, and
/// otherwise for what is shown, and the attempt is counted from now. One that
/// is not is left alone.
pub proof fn a_side_is_asked_when_it_is_due(s: IntervalState, interval: u64, listing: Listing, attached: bool, now: u64)
    ensures
        ({
            let after = s.asked(interval, listing, attached, now);
            &&& !s.due(interval, attached, now) ==> after == s
            &&& s.due(interval, attached, now) ==> {
                &&& after.endpoint.pending
                &&& after.last_attempt == Some(now)
                &&& after.endpoint.actions == s.endpoint.actions.push(
                    ActionView::StartListing {
                        listing: if attached {
                            Listing::Panes
                        } else {
                            listing
                        },
                        attached,
                    },
                )
                &&& after.endpoint.agents == s.endpoint.agents
            }
        }),
{
}

/// A new side is due at its first poll.
pub proof fn a_new_side_is_due(side: SideView, interval: u64, attached: bool, now: u64)
    ensures
        IntervalState::fresh(side).due(interval, attached, now),
        IntervalState::fresh(side).endpoint.side == side,
        IntervalState::fresh(side).endpoint.agents.len() == 0,
{
}

/// A listing that lands on an interval becomes the rows as it does on a
/// stream, and one that fails leaves none; a side that is still waiting keeps
/// what it has.
pub proof fn what_a_listing_on_an_interval_leaves(s: EndpointState, reply: ReplyView, error: PollErrorView, display: Listing, attached: bool)
    requires
        s.pending,
    ensures
        landed(s, Landed::Waiting, display, attached) == s,
        landed(s, Landed::Value(Ok(reply)), display, attached).agents == s.adopted(reply, display, attached).agents,
        !landed(s, Landed::Value(Ok(reply)), display, attached).pending,
        landed(s, Landed::Value(Err(error)), display, attached).agents.len() == 0,
        !landed(s, Landed::Value(Err(error)), display, attached).pending,
        landed(s, Landed::Value(Err(error)), display, attached).reach == s.reach.failed(error),
        landed(s, Landed::Value(Err(error)), display, attached).session_name == Read::<String>::Unread,
        !landed(s, Landed::Panicked, display, attached).pending,
        landed(s, Landed::Panicked, display, attached).reach == s.reach.failed(PollErrorView::Absent("poll_panicked"@)),
{
}

/// The native side always stays, and a distro's while the distro runs.
pub proof fn which_sides_stay(distro: Seq<char>, running: Seq<Seq<char>>)
    ensures
        stays(SideView::Native, running),
        stays(SideView::Wsl(distro), running) <==> running.contains(distro),
{
}

proof fn joining_only_adds(list: Seq<EndpointState>, running: Seq<Seq<char>>, now: u64)
    ensures
        list.len() <= joined_by(list, running, now).len(),
        forall|k: int| 0 <= k < list.len() ==> #[trigger] joined_by(list, running, now)[k] == list[k],
        forall|k: int|
            list.len() <= k < joined_by(list, running, now).len() ==> exists|d: int|
                0 <= d < running.len() && #[trigger] joined_by(list, running, now)[k] == EndpointState::fresh(
                    SideView::Wsl(#[trigger] running[d]),
                    now,
                ),
    decreases running.len(),
{
    if running.len() > 0 {
        let front = running.drop_last();
        joining_only_adds(list, front, now);
        let before = joined_by(list, front, now);
        let after = joined_by(list, running, now);
        assert forall|k: int| list.len() <= k < after.len() implies exists|d: int|
            0 <= d < running.len() && #[trigger] after[k] == EndpointState::fresh(
                SideView::Wsl(#[trigger] running[d]),
                now,
            ) by {
            if k < before.len() {
                assert(after[k] == before[k]);
                let d = choose|d: int|
                    0 <= d < front.len() && before[k] == EndpointState::fresh(SideView::Wsl(#[trigger] front[d]), now);
                assert(running[d] == front[d]);
            } else {
                assert(after[k] == EndpointState::fresh(SideView::Wsl(running[running.len() - 1]), now));
            }
        }
    }
}

/// The sides that stay come first, in their order and as they were; a side that
/// joins is a running distro's and starts afresh.
pub proof fn a_side_that_stays_is_kept_as_it_was(list: Seq<EndpointState>, running: Seq<Seq<char>>, now: u64)
    ensures
        ({
            let kept = list.filter(|s: EndpointState| stays(s.side, running));
            let after = followed(list, running, now);
            &&& after.len() >= kept.len()
            &&& forall|k: int| 0 <= k < kept.len() ==> #[trigger] after[k] == kept[k]
            &&& forall|k: int|
                kept.len() <= k < after.len() ==> exists|d: int|
                    0 <= d < running.len() && #[trigger] after[k] == EndpointState::fresh(
                        SideView::Wsl(#[trigger] running[d]),
                        now,
                    )
        }),
{
    joining_only_adds(staying(list, running), running, now);
}

/// The set counts as changed exactly where a side left or joined.
pub proof fn the_set_changes_where_a_side_leaves_or_joins(list: Seq<EndpointState>, running: Seq<Seq<char>>, now: u64)
    ensures
        ({
            let kept = list.filter(|s: EndpointState| stays(s.side, running));
            set_changes(list, running, now) <==> kept.len() < list.len() || followed(list, running, now).len()
                > kept.len()
        }),
{
    joining_only_adds(staying(list, running), running, now);
    list.lemma_filter_len(|s: EndpointState| stays(s.side, running));
}

/// Where the distros cannot be listed, their inventories are no longer
/// complete; the native one stays.
pub proof fn without_a_listing_a_distro_has_no_inventory(list: Seq<EndpointState>, i: int)
    requires
        0 <= i < list.len(),
    ensures
        unlisted(list).len() == list.len(),
        list[i].side is Native ==> unlisted(list)[i] == list[i],
        list[i].side is Wsl ==> unlisted(list)[i] == (EndpointState { inventory: None, ..list[i] }),
{
}

/// One more generation in one side moves the number of the set by one.
pub proof fn the_generations_add_up(list: Seq<EndpointState>, last: EndpointState)
    ensures
        total(list.push(last)) == total(list) + last.generation,
        total(Seq::empty()) == 0,
        set_generation(0, list) == total(list) % 0x1_0000_0000_0000_0000,
{
    assert(list.push(last).drop_last() =~= list);
}

/// An agent is attached to by `agent attach`, and a listing is `agent list` or
/// `pane list`.
pub proof fn what_attaches_and_lists(pane_id: Seq<char>)
    ensures
        attach_words(pane_id) == seq!["agent"@, "attach"@, pane_id],
        listing_words(Listing::Agents) == seq!["agent"@, "list"@],
        listing_words(Listing::Panes) == seq!["pane"@, "list"@],
{
}

/// A poll on an interval takes over what landed, and asks for a listing where
/// one is due and none is under way.
pub proof fn a_poll_on_an_interval(s: IntervalState, interval: u64, listing: Listing, attached: bool, inputs: IntervalInputs, now: u64)
    requires
        inputs.settings is Waiting,
        inputs.session_name is Waiting,
    ensures
        ({
            let after = s.polled(interval, listing, attached, inputs, now);
            &&& s.endpoint.pending && inputs.listing is Waiting ==> after.endpoint == s.endpoint.seeded(attached)
                && after.last_attempt == s.last_attempt
            &&& !s.endpoint.pending && s.due(interval, attached, now) ==> after.endpoint.pending && after.last_attempt
                == Some(now)
            &&& !s.endpoint.pending && !s.due(interval, attached, now) ==> after.endpoint.actions == s.endpoint.actions
                && after.last_attempt == s.last_attempt
            &&& !s.endpoint.pending ==> after.endpoint.agents == s.endpoint.agents
            &&& !s.endpoint.pending && !attached ==> after.endpoint.attachment.len() == 0
        }),
{
}

/// The distros are listed every ten seconds, one listing at a time, and at once
/// the first time.
pub proof fn when_the_distros_are_listed(at: u64, now: u64, under_way: bool)
    ensures
        lists_now(false, None, now),
        !lists_now(true, Some(at), now),
        !lists_now(true, None, now),
        lists_now(false, Some(at), now) <==> now >= at + 10 * 1_000_000_000,
{
}

/// Panes are listed where they are to be shown, and agents otherwise; a pane
/// is focused by `agent focus` and its id.
pub proof fn what_is_listed_and_focused(pane_id: Seq<char>)
    ensures
        Listing::wanted_for(true) == Listing::Panes,
        Listing::wanted_for(false) == Listing::Agents,
        pane_focus_words(pane_id) == seq!["agent"@, "focus"@, pane_id],
{
}

} // verus!

//! Where the view goes when herdr's focus moves.

use vstd::prelude::*;

#[allow(unused_imports)]
use crate::herdr::endpoints::{side_at, side_at_is_first};
#[allow(unused_imports)]
use crate::herdr::model::HerdrKeyView;
#[allow(unused_imports)]
use crate::herdr::poll::EndpointState;
#[allow(unused_imports)]
use crate::herdr::view::{
    focus_of, focused_at, live, trail_step, trail_walk, SessionId, Trail, ViewActionView, ViewFacts, ViewState,
};
#[allow(unused_imports)]
use crate::multiplexer::model::Pane;
#[allow(unused_imports)]
use crate::side::SideView;

verus! {

proof fn the_first_focused_is_found(list: Seq<Pane>)
    ensures
        match focused_at(list) {
            Some(at) => 0 <= at < list.len() && list[at].focused && forall|i: int|
                0 <= i < at ==> !(#[trigger] list[i]).focused,
            None => forall|i: int| 0 <= i < list.len() ==> !(#[trigger] list[i]).focused,
        },
    decreases list.len(),
{
    if list.len() > 0 {
        let front = list.drop_last();
        the_first_focused_is_found(front);
        assert forall|i: int| 0 <= i < front.len() implies #[trigger] list[i] == front[i] by {}
    }
}

/// A side's focus is the terminal of its first focused row, as of its last
/// sample; without a sample or a focused row it has none.
pub proof fn the_focus_of_a_side_is_its_first_focused_row(cache: EndpointState, at: int)
    ensures
        0 <= at < cache.agents.len() && cache.agents[at].focused && (forall|i: int|
            0 <= i < at ==> !(#[trigger] cache.agents[i]).focused) ==> (cache.sampled_at matches Some(when)
            ==> focus_of(cache) == Some((cache.agents[at].terminal_id@, when))),
        cache.sampled_at is None ==> focus_of(cache) is None,
        (forall|i: int| 0 <= i < cache.agents.len() ==> !(#[trigger] cache.agents[i]).focused) ==> focus_of(cache) is None,
{
    the_first_focused_is_found(cache.agents);
}

/// A view on herdr's shared screen follows herdr to another pane where it is
/// watched, sampled later than the view's own last move, and following is on:
/// to that terminal on the same side. That sample is then the last move.
pub proof fn a_shared_view_follows_its_side(
    state: ViewState,
    facts: ViewFacts,
    id: SessionId,
    key: HerdrKeyView,
    at: int,
    terminal_id: Seq<char>,
    sampled_at: u64,
    after: u64,
)
    requires
        facts.sharing() == Some((id, key)),
        state.visible == Some(id),
        state.focused == Some(id),
        state.follow_after == Some(after),
        side_at(facts.caches, key.side) == Some(at),
        focus_of(facts.caches[at]) == Some((terminal_id, sampled_at)),
        !facts.busy,
        facts.attentive,
        sampled_at > after,
        terminal_id != key.terminal_id,
        !(facts.follow is Off),
    ensures
        state.next(facts).1 == Some(ViewActionView::Follow(HerdrKeyView { side: key.side, terminal_id })),
        state.next(facts).0.follow_after == Some(sampled_at),
        state.next(facts).0.trail == state.trail,
{
}

/// A view that is not watched, or whose own move is newer, stays.
pub proof fn a_shared_view_stays_where_it_was_moved_to(
    state: ViewState,
    facts: ViewFacts,
    id: SessionId,
    key: HerdrKeyView,
    at: int,
    after: u64,
)
    requires
        facts.sharing() == Some((id, key)),
        state.visible == Some(id),
        state.focused == Some(id),
        state.follow_after == Some(after),
        side_at(facts.caches, key.side) == Some(at),
        !facts.attentive || (focus_of(facts.caches[at]) matches Some(seen) ==> seen.1 <= after),
    ensures
        state.shared(facts).1 is None,
        state.shared(facts).0 == state,
{
}

/// The active session's pane is the one the facts name.
pub proof fn the_active_pane_is_the_named_one(facts: ViewFacts)
    ensures
        facts.active matches Some((_, key, _)) ==> facts.active_key() == key,
        facts.active is None ==> facts.active_key() is None,
        facts.sharing() matches Some((id, key)) ==> facts.active is Some && (facts.active->0).0 == id && (
        facts.active->0).1 == Some(key),
{
}

/// The first sight of a side's focus is noted. A later sight of another pane,
/// sampled after the last, is a change: noted where the user is there already,
/// and otherwise told, the first side's of a walk before the others.
pub proof fn a_change_of_focus_is_told_once(
    trail: Trail,
    edge: Option<HerdrKeyView>,
    cache: EndpointState,
    active: Option<HerdrKeyView>,
    terminal_id: Seq<char>,
    at: u64,
)
    requires
        focus_of(cache) == Some((terminal_id, at)),
    ensures
        ({
            let (after, told) = trail_step(trail, edge, cache, active);
            let key = HerdrKeyView { side: cache.side, terminal_id };
            &&& !trail.contains_key(cache.side) ==> after == trail.insert(cache.side, (terminal_id, at)) && told == edge
            &&& trail.contains_key(cache.side) ==> {
                let seen = trail[cache.side];
                let changed = seen.0 != terminal_id && at > seen.1;
                &&& !changed ==> after == trail && told == edge
                &&& changed && active == Some(key) ==> after == trail.insert(cache.side, (terminal_id, at)) && told == edge
                &&& changed && active != Some(key) && edge is None ==> after == trail && told == Some(key)
                &&& changed && active != Some(key) && edge is Some ==> after == trail && told == edge
            }
        }),
{
}

/// A side without a focus changes nothing.
pub proof fn a_side_without_a_focus_changes_nothing(
    trail: Trail,
    edge: Option<HerdrKeyView>,
    cache: EndpointState,
    active: Option<HerdrKeyView>,
)
    requires
        focus_of(cache) is None,
    ensures
        trail_step(trail, edge, cache, active) == (trail, edge),
{
}

/// A walk visits the sides in order.
pub proof fn a_walk_visits_the_sides_in_order(trail: Trail, caches: Seq<EndpointState>, last: EndpointState, active: Option<HerdrKeyView>)
    ensures
        trail_walk(trail, Seq::empty(), active) == (trail, None::<HerdrKeyView>),
        trail_walk(trail, caches.push(last), active) == trail_step(
            trail_walk(trail, caches, active).0,
            trail_walk(trail, caches, active).1,
            last,
            active,
        ),
{
    assert(caches.push(last).drop_last() =~= caches);
}

/// A change of focus inside herdr takes the user there from any session, if
/// following is always on, and never if it is on for herdr's own view alone.
pub proof fn a_change_of_focus_is_followed_from_anywhere(state: ViewState, facts: ViewFacts, key: HerdrKeyView)
    requires
        facts.active is None,
        !facts.busy,
        facts.attentive,
        state.showing(None).edged(facts).1 == Some(key),
    ensures
        facts.follow is Always ==> state.next(facts).1 == Some(ViewActionView::Follow(key)),
        facts.follow is Herdr ==> state.next(facts).1 is None,
{
}

/// A view that nobody watches does not even note where herdr's focus is.
pub proof fn an_unwatched_view_notes_nothing(state: ViewState, facts: ViewFacts)
    requires
        facts.active is None,
        !facts.attentive,
    ensures
        state.next(facts).0.trail == state.trail,
        state.next(facts).1 is None,
{
}

/// A move made here is noted for its side alone.
pub proof fn a_move_is_noted_for_its_side(state: ViewState, key: HerdrKeyView, at: u64)
    ensures
        ({
            let after = state.moved(key, at);
            &&& after.trail.contains_key(key.side) && after.trail[key.side] == (key.terminal_id, at)
            &&& forall|side: SideView|
                side != key.side ==> (#[trigger] after.trail.contains_key(side) <==> state.trail.contains_key(side)) && (
                state.trail.contains_key(side) ==> after.trail[side] == state.trail[side])
            &&& after.visible == state.visible && after.focused == state.focused && after.follow_after
                == state.follow_after
        }),
{
}

/// A session that closes is no longer visible or focused, and the others stay.
pub proof fn a_closed_session_is_no_longer_shown(state: ViewState, id: SessionId)
    ensures
        state.closed(id).visible != Some(id),
        state.closed(id).focused != Some(id),
        state.visible != Some(id) ==> state.closed(id).visible == state.visible && state.closed(id).follow_after
            == state.follow_after,
        state.visible == Some(id) ==> state.closed(id).follow_after is None,
        state.focused != Some(id) ==> state.closed(id).focused == state.focused,
        state.closed(id).trail == state.trail,
{
}

/// A focus call that came back settles the view that still shows its session:
/// it counts as focused, and follows what is sampled after the call if that
/// went well and nothing if not. Another view is left alone.
pub proof fn a_focus_call_settles_its_view(state: ViewState, id: SessionId, succeeded: bool, at: u64)
    ensures
        state.visible == Some(id) ==> {
            let after = state.settled(id, succeeded, at);
            &&& after.focused == Some(id)
            &&& succeeded ==> after.follow_after == Some(at)
            &&& !succeeded ==> after.follow_after is None
            &&& after.visible == state.visible && after.trail == state.trail
        },
        state.visible != Some(id) ==> state.settled(id, succeeded, at) == state,
{
}

/// An attach shows its session, settled as of then, and notes its pane.
pub proof fn an_attach_shows_its_session(state: ViewState, id: SessionId, key: HerdrKeyView, at: u64)
    ensures
        ({
            let after = state.attached(id, Some(key), at);
            &&& after.visible == Some(id) && after.focused == Some(id) && after.follow_after == Some(at)
            &&& after.trail == state.trail.insert(key.side, (key.terminal_id, at))
        }),
        state.attached(id, None, at).trail == state.trail,
        state.attached(id, None, at).visible == Some(id),
{
}

/// Showing another session starts its view over; the same one stays.
pub proof fn showing_another_session_starts_over(state: ViewState, visible: Option<SessionId>)
    ensures
        state.showing(visible).visible == visible,
        state.visible == visible ==> state.showing(visible) == state,
        state.visible != visible ==> state.showing(visible).focused is None && state.showing(visible).follow_after
            is None,
        state.showing(visible).trail == state.trail,
        ViewState::fresh().visible is None,
        ViewState::fresh().focused is None,
        ViewState::fresh().follow_after is None,
        forall|side: SideView| !ViewState::fresh().trail.contains_key(side),
{
}

proof fn a_walk_notes_only_what_it_visits(trail: Trail, caches: Seq<EndpointState>, active: Option<HerdrKeyView>, side: SideView)
    ensures
        trail_walk(trail, caches, active).0.contains_key(side) ==> trail.contains_key(side) || exists|i: int|
            0 <= i < caches.len() && (#[trigger] caches[i]).side == side,
        trail.contains_key(side) ==> trail_walk(trail, caches, active).0.contains_key(side),
    decreases caches.len(),
{
    if caches.len() > 0 {
        let front = caches.drop_last();
        a_walk_notes_only_what_it_visits(trail, front, active, side);
        if exists|i: int| 0 <= i < front.len() && (#[trigger] front[i]).side == side {
            let i = choose|i: int| 0 <= i < front.len() && (#[trigger] front[i]).side == side;
            assert(caches[i].side == side);
        }
        assert(caches[caches.len() - 1] == caches.last());
    }
}

/// A side that is gone is forgotten, so that its return is a first sight again;
/// what is noted of the others is kept.
pub proof fn a_side_that_is_gone_is_forgotten(state: ViewState, facts: ViewFacts, side: SideView)
    ensures
        (forall|i: int| 0 <= i < facts.caches.len() ==> (#[trigger] facts.caches[i]).side != side) ==> !state.edged(
            facts,
        ).0.trail.contains_key(side),
        state.trail.contains_key(side) && (exists|i: int|
            0 <= i < facts.caches.len() && (#[trigger] facts.caches[i]).side == side) ==> state.edged(
            facts,
        ).0.trail.contains_key(side),
        state.edged(facts).0.visible == state.visible,
        state.edged(facts).0.focused == state.focused,
        state.edged(facts).0.follow_after == state.follow_after,
{
    side_at_is_first(facts.caches, side);
    a_walk_notes_only_what_it_visits(
        state.trail.restrict(live(facts.caches)),
        facts.caches,
        facts.active_key(),
        side,
    );
}

} // verus!

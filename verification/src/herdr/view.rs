//! Which herdr pane is being shown, and when to tell herdr to move.
//!
//! Every herdr client draws the one pane herdr has focused, so a session
//! sharing herdr's view has to ask for its own pane before its client can
//! start, and follows herdr afterwards.

use vstd::prelude::*;

use crate::herdr::endpoints::find_side;
#[allow(unused_imports)]
use crate::herdr::endpoints::{side_at, side_at_is_first, states};
use crate::herdr::model::{attaches_directly, AttachMode, HerdrKey};
#[allow(unused_imports)]
use crate::herdr::model::{opens_directly, HerdrKeyView};
use crate::herdr::poll::EndpointCache;
#[allow(unused_imports)]
use crate::herdr::poll::EndpointState;
use crate::multiplexer::model::Pane;
use crate::side::{Platform, Side};
#[allow(unused_imports)]
use crate::side::SideView;
use crate::text::same;

verus! {

/// Names one open session.
pub type SessionId = u64;

/// How far a focus change made inside herdr is followed.
#[derive(Debug, Clone, Copy, PartialEq, Eq, Structural)]
pub enum FollowFocus {
    /// Never.
    Off,
    /// While a session shows herdr's shared view.
    Herdr,
    /// From any session.
    Always,
}

/// Where a side's focus was last established, and when.  The stamp is a
/// watermark: a listing sampled at or before it cannot form an edge, so one
/// already in flight when the focus was moved cannot run the change
/// backwards.
#[derive(Debug, PartialEq, Eq)]
pub struct TrailEntry {
    pub side: Side,
    pub terminal_id: String,
    pub stamped_at: u64,
}

/// The shared view's standing: the session it shows, the one herdr was last
/// focused for, and where each side's focus was last established.
#[derive(Debug, PartialEq, Eq)]
pub struct HerdrViewSync {
    pub visible: Option<SessionId>,
    pub focused: Option<SessionId>,
    pub follow_after: Option<u64>,
    pub trail: Vec<TrailEntry>,
}

/// What a view calls for.
#[derive(Debug, PartialEq, Eq)]
pub enum HerdrViewAction {
    /// Tell herdr to focus that session's pane.
    Focus(SessionId),
    /// Go where herdr's focus went.
    Follow(HerdrKey),
}

/// An action with its key viewed.
pub enum ViewActionView {
    Focus(SessionId),
    Follow(HerdrKeyView),
}

/// The view of an action, where there is one.
pub open spec fn opt_action(action: Option<HerdrViewAction>) -> Option<ViewActionView> {
    match action {
        None => None,
        Some(HerdrViewAction::Focus(id)) => Some(ViewActionView::Focus(id)),
        Some(HerdrViewAction::Follow(key)) => Some(ViewActionView::Follow(key@)),
    }
}

/// Everything `next` decides from.
pub struct ViewInputs<'a> {
    /// The active session, its herdr key and whether its pane holds an agent,
    /// before any direct-attach filter.  The filter belongs to the shared-view
    /// path: a session that attaches directly still occupies a pane, and a
    /// trail blind to its key would follow the user to the pane they are
    /// already on.
    pub active: Option<(SessionId, Option<&'a HerdrKey>, bool)>,
    pub attach: AttachMode,
    pub follow: FollowFocus,
    pub caches: &'a Vec<EndpointCache>,
    /// The window is focused, the terminal has pane focus, and neither a
    /// modal nor the palette is open.
    pub attentive: bool,
    pub busy: bool,
    pub platform: Platform,
}

/// What `next` decides from, viewed.
pub struct ViewFacts {
    pub active: Option<(SessionId, Option<HerdrKeyView>, bool)>,
    pub attach: AttachMode,
    pub follow: FollowFocus,
    pub caches: Seq<EndpointState>,
    pub attentive: bool,
    pub busy: bool,
    pub platform: Platform,
}

impl<'a> View for ViewInputs<'a> {
    type V = ViewFacts;

    open spec fn view(&self) -> ViewFacts {
        ViewFacts {
            active: match self.active {
                Some((id, Some(key), has_agent)) => Some((id, Some(key@), has_agent)),
                Some((id, None, has_agent)) => Some((id, None, has_agent)),
                None => None,
            },
            attach: self.attach,
            follow: self.follow,
            caches: states(self.caches@),
            attentive: self.attentive,
            busy: self.busy,
            platform: self.platform,
        }
    }
}

impl ViewFacts {
    /// The key of the active session, where it has one.
    pub open spec fn active_key(self) -> Option<HerdrKeyView> {
        match self.active {
            Some((_, key, _)) => key,
            None => None,
        }
    }

    /// The active session, where it shows herdr's shared view.
    pub open spec fn sharing(self) -> Option<(SessionId, HerdrKeyView)> {
        match self.active {
            Some((id, Some(key), has_agent)) => if opens_directly(key.side, self.attach, has_agent, self.platform) {
                None
            } else {
                Some((id, key))
            },
            _ => None,
        }
    }
}

/// Where the first focused pane of a list stands.
pub open spec fn focused_at(list: Seq<Pane>) -> Option<int>
    decreases list.len(),
{
    if list.len() == 0 {
        None
    } else {
        match focused_at(list.drop_last()) {
            Some(at) => Some(at),
            None => if list.last().focused {
                Some(list.len() - 1)
            } else {
                None
            },
        }
    }
}

/// The terminal of a side's focused pane, as a current listing has it.
pub open spec fn focus_of(cache: EndpointState) -> Option<(Seq<char>, u64)> {
    match (cache.sampled_at, focused_at(cache.agents)) {
        (Some(at), Some(i)) => Some((cache.agents[i].terminal_id@, at)),
        _ => None,
    }
}

/// Where each side's focus was last established.
pub type Trail = Map<SideView, (Seq<char>, u64)>;

/// The trail after one side was looked at, and the change found so far.
pub open spec fn trail_step(
    trail: Trail,
    edge: Option<HerdrKeyView>,
    cache: EndpointState,
    active: Option<HerdrKeyView>,
) -> (Trail, Option<HerdrKeyView>) {
    match focus_of(cache) {
        None => (trail, edge),
        Some((terminal_id, at)) => {
            let key = HerdrKeyView { side: cache.side, terminal_id };
            if !trail.contains_key(cache.side) {
                (trail.insert(cache.side, (terminal_id, at)), edge)
            } else if trail[cache.side].0 == terminal_id || at <= trail[cache.side].1 {
                (trail, edge)
            } else if active == Some(key) {
                (trail.insert(cache.side, (terminal_id, at)), edge)
            } else {
                (
                    trail,
                    match edge {
                        Some(first) => Some(first),
                        None => Some(key),
                    },
                )
            }
        },
    }
}

/// The trail after every side was looked at in turn, and the first change.
pub open spec fn trail_walk(trail: Trail, caches: Seq<EndpointState>, active: Option<HerdrKeyView>) -> (
    Trail,
    Option<HerdrKeyView>,
)
    decreases caches.len(),
{
    if caches.len() == 0 {
        (trail, None)
    } else {
        let (before, edge) = trail_walk(trail, caches.drop_last(), active);
        trail_step(before, edge, caches.last(), active)
    }
}

/// The sides there are endpoints for.
pub open spec fn live(caches: Seq<EndpointState>) -> Set<SideView> {
    Set::new(|side: SideView| side_at(caches, side) is Some)
}

/// The shared view's standing, with its trail as a map.
#[verifier::ext_equal]
pub struct ViewState {
    pub visible: Option<SessionId>,
    pub focused: Option<SessionId>,
    pub follow_after: Option<u64>,
    pub trail: Trail,
}

impl ViewState {
    /// Nothing shown, and nothing known.
    pub open spec fn fresh() -> Self {
        ViewState { visible: None, focused: None, follow_after: None, trail: Map::empty() }
    }

    /// After a session closed.
    pub open spec fn closed(self, id: SessionId) -> Self {
        ViewState {
            visible: if self.visible == Some(id) {
                None
            } else {
                self.visible
            },
            follow_after: if self.visible == Some(id) {
                None
            } else {
                self.follow_after
            },
            focused: if self.focused == Some(id) {
                None
            } else {
                self.focused
            },
            ..self
        }
    }

    /// Where herdr's focus now is.
    pub open spec fn moved(self, key: HerdrKeyView, at: u64) -> Self {
        ViewState { trail: self.trail.insert(key.side, (key.terminal_id, at)), ..self }
    }

    /// After a focus call for the session on screen came back.
    pub open spec fn settled(self, id: SessionId, succeeded: bool, at: u64) -> Self {
        if self.visible == Some(id) {
            ViewState {
                focused: Some(id),
                follow_after: if succeeded {
                    Some(at)
                } else {
                    None
                },
                ..self
            }
        } else {
            self
        }
    }

    /// After a session attached to the shared view.
    pub open spec fn attached(self, id: SessionId, key: Option<HerdrKeyView>, at: u64) -> Self {
        let s = match key {
            Some(key) => self.moved(key, at),
            None => self,
        };
        (ViewState { visible: Some(id), ..s }).settled(id, true, at)
    }

    /// The standing once the session on screen is the one the facts name.
    pub open spec fn showing(self, visible: Option<SessionId>) -> Self {
        if self.visible == visible {
            self
        } else {
            ViewState { visible, focused: None, follow_after: None, ..self }
        }
    }

    /// The session on screen asking herdr for its own pane, and following
    /// herdr afterwards.
    pub open spec fn shared(self, facts: ViewFacts) -> (Self, Option<ViewActionView>) {
        match facts.sharing() {
            None => (self.showing(None), None),
            Some((id, key)) => {
                let s = self.showing(Some(id));
                if facts.busy {
                    (s, None)
                } else if s.focused != Some(id) {
                    (s, Some(ViewActionView::Focus(id)))
                } else {
                    match side_at(facts.caches, key.side) {
                        None => (s, None),
                        Some(at) => match (focus_of(facts.caches[at]), s.follow_after) {
                            (Some((terminal_id, sampled_at)), Some(after)) => {
                                if !facts.attentive || sampled_at <= after {
                                    (s, None)
                                } else {
                                    (
                                        ViewState { follow_after: Some(sampled_at), ..s },
                                        if terminal_id == key.terminal_id {
                                            None
                                        } else {
                                            Some(
                                                ViewActionView::Follow(
                                                    HerdrKeyView { side: key.side, terminal_id },
                                                ),
                                            )
                                        },
                                    )
                                }
                            },
                            _ => (s, None),
                        },
                    }
                }
            },
        }
    }

    /// The trail brought up to date, and the first side whose focused pane
    /// differs from what it held.
    pub open spec fn edged(self, facts: ViewFacts) -> (Self, Option<HerdrKeyView>) {
        let (trail, edge) = trail_walk(
            self.trail.restrict(live(facts.caches)),
            facts.caches,
            facts.active_key(),
        );
        (ViewState { trail, ..self }, edge)
    }

    /// What the view calls for next.
    pub open spec fn next(self, facts: ViewFacts) -> (Self, Option<ViewActionView>) {
        let (s, action) = self.shared(facts);
        match action {
            Some(ViewActionView::Focus(id)) => (s, Some(ViewActionView::Focus(id))),
            Some(ViewActionView::Follow(key)) => (
                s,
                if facts.follow == FollowFocus::Off {
                    None
                } else {
                    Some(ViewActionView::Follow(key))
                },
            ),
            None => {
                if facts.busy || !facts.attentive {
                    (s, None)
                } else {
                    let (s, edge) = s.edged(facts);
                    (
                        s,
                        match edge {
                            Some(key) => if facts.follow == FollowFocus::Always {
                                Some(ViewActionView::Follow(key))
                            } else {
                                None
                            },
                            None => None,
                        },
                    )
                }
            },
        }
    }
}

/// Where the first entry of a side stands.
pub open spec fn entry_at(list: Seq<TrailEntry>, side: SideView) -> Option<int>
    decreases list.len(),
{
    if list.len() == 0 {
        None
    } else {
        match entry_at(list.drop_last(), side) {
            Some(at) => Some(at),
            None => if list.last().side@ == side {
                Some(list.len() - 1)
            } else {
                None
            },
        }
    }
}

/// The trail a list of entries holds.
pub open spec fn trail_of(list: Seq<TrailEntry>) -> Trail {
    Map::new(
        |side: SideView| entry_at(list, side) is Some,
        |side: SideView|
            {
                let e = list[entry_at(list, side)->0];
                (e.terminal_id@, e.stamped_at)
            },
    )
}

impl View for HerdrViewSync {
    type V = ViewState;

    open spec fn view(&self) -> ViewState {
        ViewState {
            visible: self.visible,
            focused: self.focused,
            follow_after: self.follow_after,
            trail: trail_of(self.trail@),
        }
    }
}

proof fn entry_at_is_first(list: Seq<TrailEntry>, side: SideView)
    ensures
        match entry_at(list, side) {
            Some(at) => 0 <= at < list.len() && list[at].side@ == side && forall|k: int|
                0 <= k < at ==> (#[trigger] list[k]).side@ != side,
            None => forall|k: int| 0 <= k < list.len() ==> (#[trigger] list[k]).side@ != side,
        },
    decreases list.len(),
{
    if list.len() > 0 {
        let front = list.drop_last();
        entry_at_is_first(front, side);
        assert forall|k: int| 0 <= k < front.len() implies front[k] == #[trigger] list[k] by {}
    }
}

proof fn first_entry_is(list: Seq<TrailEntry>, side: SideView, at: int)
    requires
        0 <= at < list.len(),
        list[at].side@ == side,
        forall|k: int| 0 <= k < at ==> (#[trigger] list[k]).side@ != side,
    ensures
        entry_at(list, side) == Some(at),
{
    entry_at_is_first(list, side);
    let found = entry_at(list, side);
    if found is Some && found->0 < at {
        assert(list[found->0].side@ != side);
    }
}

proof fn no_entry_is(list: Seq<TrailEntry>, side: SideView)
    requires
        forall|k: int| 0 <= k < list.len() ==> (#[trigger] list[k]).side@ != side,
    ensures
        entry_at(list, side) is None,
{
    entry_at_is_first(list, side);
}

/// Writing over a side's first entry, or adding one where it has none, changes
/// what the trail holds for that side alone.
proof fn a_stamp_is_one_insert(list: Seq<TrailEntry>, entry: TrailEntry)
    ensures
        match entry_at(list, entry.side@) {
            Some(at) => trail_of(list.update(at, entry)) == trail_of(list).insert(
                entry.side@,
                (entry.terminal_id@, entry.stamped_at),
            ),
            None => trail_of(list.push(entry)) == trail_of(list).insert(
                entry.side@,
                (entry.terminal_id@, entry.stamped_at),
            ),
        },
{
    let side = entry.side@;
    entry_at_is_first(list, side);
    let after = match entry_at(list, side) {
        Some(at) => list.update(at, entry),
        None => list.push(entry),
    };
    assert forall|s: SideView| #[trigger] trail_of(after).dom().contains(s) == trail_of(list).insert(
        side,
        (entry.terminal_id@, entry.stamped_at),
    ).dom().contains(s) && (trail_of(after).dom().contains(s) ==> trail_of(after)[s] == trail_of(list).insert(
        side,
        (entry.terminal_id@, entry.stamped_at),
    )[s]) by {
        entry_at_is_first(list, s);
        if s == side {
            match entry_at(list, side) {
                Some(at) => first_entry_is(after, side, at),
                None => first_entry_is(after, side, list.len() as int),
            }
        } else {
            match entry_at(list, s) {
                Some(at) => first_entry_is(after, s, at),
                None => no_entry_is(after, s),
            }
        }
    }
    assert(trail_of(after) =~= trail_of(list).insert(side, (entry.terminal_id@, entry.stamped_at)));
}

fn find_entry(list: &Vec<TrailEntry>, side: &Side) -> (r: Option<usize>)
    ensures
        (match r {
            Some(at) => Some(at as int),
            None => None,
        }) == entry_at(list@, side@),
        r matches Some(at) ==> at < list@.len(),
{
    let mut i: usize = 0;
    while i < list.len()
        invariant
            i <= list@.len(),
            forall|k: int| 0 <= k < i ==> (#[trigger] list@[k]).side@ != side@,
        decreases list@.len() - i,
    {
        if list[i].side.same_side(side) {
            proof {
                first_entry_is(list@, side@, i as int);
            }
            return Some(i);
        }
        i += 1;
    }
    proof {
        no_entry_is(list@, side@);
    }
    None
}

fn first_focused(list: &Vec<Pane>) -> (r: Option<usize>)
    ensures
        (match r {
            Some(at) => Some(at as int),
            None => None,
        }) == focused_at(list@),
        r matches Some(at) ==> at < list@.len(),
{
    let ghost all = list@;
    let mut i: usize = 0;
    proof {
        assert(all.take(0) =~= Seq::<Pane>::empty());
    }
    while i < list.len()
        invariant
            i <= list@.len(),
            all == list@,
            focused_at(all.take(i as int)) is None,
        decreases list@.len() - i,
    {
        assert(all.take(i + 1).drop_last() =~= all.take(i as int));
        assert(all.take(i + 1).last() == all[i as int]);
        if list[i].focused {
            proof {
                focused_at_extends(all, i + 1);
            }
            return Some(i);
        }
        i += 1;
    }
    assert(all.take(all.len() as int) =~= all);
    None
}

proof fn focused_at_extends(list: Seq<Pane>, upto: int)
    requires
        0 <= upto <= list.len(),
        focused_at(list.take(upto)) is Some,
    ensures
        focused_at(list) == focused_at(list.take(upto)),
    decreases list.len(),
{
    if upto == list.len() {
        assert(list.take(upto) =~= list);
    } else {
        let front = list.drop_last();
        assert(front.take(upto) =~= list.take(upto));
        focused_at_extends(front, upto);
    }
}

/// The terminal a side is focused on and when that was sampled, as a current
/// listing has it.
fn side_focus(cache: &EndpointCache) -> (r: Option<(String, u64)>)
    ensures
        (match r {
            Some((terminal_id, at)) => Some((terminal_id@, at)),
            None => None,
        }) == focus_of(cache@),
{
    match cache.sampled_at() {
        None => None,
        Some(at) => match first_focused(cache.agents()) {
            // Where only agents are listed, an unlisted focus reads the same
            // as a failed poll, so a side with no focused pane is left alone.
            None => None,
            Some(i) => Some((cache.agents()[i].terminal_id.clone(), at)),
        },
    }
}

impl HerdrViewSync {
    /// Nothing shown, and nothing known.
    pub fn new() -> (r: Self)
        ensures
            r@ == ViewState::fresh(),
    {
        let r = HerdrViewSync { visible: None, focused: None, follow_after: None, trail: Vec::new() };
        assert(r@ =~= ViewState::fresh());
        r
    }

    /// A session has closed.
    pub fn closed(&mut self, id: SessionId)
        ensures
            final(self)@ == old(self)@.closed(id),
    {
        if self.visible == Some(id) {
            self.visible = None;
            self.follow_after = None;
        }
        if self.focused == Some(id) {
            self.focused = None;
        }
    }

    /// A session has attached to the shared view.
    pub fn attached(&mut self, id: SessionId, key: Option<&HerdrKey>, at: u64)
        ensures
            final(self)@ == old(self)@.attached(
                id,
                match key {
                    Some(key) => Some(key@),
                    None => None,
                },
                at,
            ),
    {
        if let Some(key) = key {
            self.moved_focus(key, at);
        }
        self.visible = Some(id);
        self.settled(id, true, at);
    }

    /// A focus call for a session has come back.
    pub fn settled(&mut self, id: SessionId, succeeded: bool, at: u64)
        ensures
            final(self)@ == old(self)@.settled(id, succeeded, at),
    {
        if self.visible == Some(id) {
            self.focused = Some(id);
            self.follow_after = if succeeded {
                Some(at)
            } else {
                None
            };
        }
    }

    /// Record where herdr's focus now is, without proposing anything.  Every
    /// path that moves herdr's focus calls this, so the move asked for here is
    /// never mistaken for one the user made inside herdr.
    pub fn moved_focus(&mut self, key: &HerdrKey, at: u64)
        ensures
            final(self)@ == old(self)@.moved(key@, at),
    {
        let entry = TrailEntry {
            side: key.side.clone(),
            terminal_id: key.terminal_id.clone(),
            stamped_at: at,
        };
        proof {
            a_stamp_is_one_insert(self.trail@, entry);
        }
        match find_entry(&self.trail, &key.side) {
            Some(i) => {
                self.trail.set(i, entry);
            },
            None => {
                self.trail.push(entry);
            },
        }
    }

    /// The first side whose focused pane differs from what the trail holds.
    /// Two sides changing between one frame and the next is rare enough that
    /// a deliberate tiebreak would be inventing a rule nobody can observe,
    /// and the other side's change is still a change on the next frame.
    fn trail_edge(&mut self, inputs: &ViewInputs<'_>) -> (r: Option<HerdrKey>)
        ensures
            final(self)@ == old(self)@.edged(inputs@).0,
            (match r {
                Some(key) => Some(key@),
                None => None,
            }) == old(self)@.edged(inputs@).1,
    {
        let ghost start = self@;
        self.keep_live(inputs.caches);
        let ghost kept = self@.trail;
        let ghost all = states(inputs.caches@);
        let active_key = match inputs.active {
            Some((_, key, _)) => key,
            None => None,
        };
        let mut edge: Option<HerdrKey> = None;
        let mut i: usize = 0;
        proof {
            assert(all.take(0) =~= Seq::<EndpointState>::empty());
        }
        while i < inputs.caches.len()
            invariant
                i <= inputs.caches@.len(),
                all == states(inputs.caches@),
                (match active_key {
                    Some(key) => Some(key@),
                    None => None,
                }) == inputs@.active_key(),
                self@ == (ViewState { trail: self@.trail, ..start }),
                trail_walk(kept, all.take(i as int), inputs@.active_key()) == (
                    self@.trail,
                    match edge {
                        Some(key) => Some(key@),
                        None => None,
                    },
                ),
            decreases inputs.caches@.len() - i,
        {
            assert(all.take(i + 1).drop_last() =~= all.take(i as int));
            assert(all.take(i + 1).last() == inputs.caches@[i as int]@);
            let cache = &inputs.caches[i];
            if let Some((terminal_id, sampled_at)) = side_focus(cache) {
                let key = HerdrKey { side: cache.side().clone(), terminal_id };
                match find_entry(&self.trail, cache.side()) {
                    // An id appearing where there was no entry is first sight.
                    None => self.moved_focus(&key, sampled_at),
                    Some(at) => {
                        let known = same(&self.trail[at].terminal_id, &key.terminal_id);
                        let stale = sampled_at <= self.trail[at].stamped_at;
                        let here = match active_key {
                            Some(active) => active.same_key(&key),
                            None => false,
                        };
                        if known || stale {
                        } else if here {
                            self.moved_focus(&key, sampled_at);
                        } else if edge.is_none() {
                            edge = Some(key);
                        }
                    },
                }
            }
            i += 1;
        }
        assert(all.take(all.len() as int) =~= all);
        edge
    }

    /// Drops what is known of a side that has no endpoint any more.
    fn keep_live(&mut self, caches: &Vec<EndpointCache>)
        ensures
            final(self)@ == (ViewState {
                trail: old(self)@.trail.restrict(live(states(caches@))),
                ..old(self)@
            }),
    {
        let ghost start = self@;
        let ghost all = self.trail@;
        let ghost here = live(states(caches@));
        let mut list: Vec<TrailEntry> = Vec::new();
        std::mem::swap(&mut list, &mut self.trail);
        let mut out: Vec<TrailEntry> = Vec::new();
        let ghost mut done: int = 0;
        proof {
            assert(all.take(0) =~= Seq::<TrailEntry>::empty());
            assert(all.skip(0) =~= all);
            assert(trail_of(all.take(0)) =~= Map::empty());
            assert(trail_of(out@) =~= trail_of(all.take(0)).restrict(here));
        }
        while list.len() > 0
            invariant
                0 <= done <= all.len(),
                list@ == all.skip(done),
                here == live(states(caches@)),
                trail_of(out@) == trail_of(all.take(done)).restrict(here),
                self.visible == start.visible,
                self.focused == start.focused,
                self.follow_after == start.follow_after,
            decreases list@.len(),
        {
            let entry = list.remove(0);
            proof {
                assert(entry == all[done]);
                assert(all.skip(done).remove(0) =~= all.skip(done + 1));
                assert(all.take(done).push(entry) =~= all.take(done + 1));
            }
            let ghost before = out@;
            if find_side(caches, &entry.side).is_some() {
                let ghost e = entry;
                match find_entry(&out, &entry.side) {
                    Some(_) => {},
                    None => out.push(entry),
                }
                proof {
                    pushed_entry(all.take(done), e);
                    pushed_entry(before, e);
                    assert(here.contains(e.side@));
                    assert(trail_of(out@) =~= trail_of(all.take(done + 1)).restrict(here));
                }
            } else {
                proof {
                    pushed_entry(all.take(done), entry);
                    assert(!here.contains(entry.side@));
                    assert(trail_of(out@) =~= trail_of(all.take(done + 1)).restrict(here));
                }
            }
            proof {
                done = done + 1;
            }
        }
        assert(all.take(all.len() as int) =~= all);
        self.trail = out;
    }

    /// What the view calls for next.
    pub fn next(&mut self, inputs: ViewInputs<'_>) -> (r: Option<HerdrViewAction>)
        ensures
            final(self)@ == old(self)@.next(inputs@).0,
            opt_action(r) == old(self)@.next(inputs@).1,
    {
        match self.shared_view(&inputs) {
            Some(HerdrViewAction::Focus(id)) => Some(HerdrViewAction::Focus(id)),
            Some(HerdrViewAction::Follow(key)) => {
                // The setting governs whether herdr may move the user, never
                // whether the user may move herdr: a shared view draws the
                // wrong pane without its own focus call.
                if inputs.follow == FollowFocus::Off {
                    None
                } else {
                    Some(HerdrViewAction::Follow(key))
                }
            },
            None => {
                if inputs.busy || !inputs.attentive {
                    return None;
                }
                match self.trail_edge(&inputs) {
                    None => None,
                    Some(key) => if inputs.follow == FollowFocus::Always {
                        Some(HerdrViewAction::Follow(key))
                    } else {
                        None
                    },
                }
            },
        }
    }

    /// The session on screen asking herdr for its own pane, and following
    /// herdr afterwards.  Watermarked against listings that were already in
    /// flight when our own focus call landed.
    fn shared_view(&mut self, inputs: &ViewInputs<'_>) -> (r: Option<HerdrViewAction>)
        ensures
            final(self)@ == old(self)@.shared(inputs@).0,
            opt_action(r) == old(self)@.shared(inputs@).1,
    {
        let active = match inputs.active {
            Some((id, Some(key), has_agent)) => if attaches_directly(
                &key.side,
                inputs.attach,
                has_agent,
                inputs.platform,
            ) {
                None
            } else {
                Some((id, key, has_agent))
            },
            _ => None,
        };
        let visible = match active {
            Some((id, _, _)) => Some(id),
            None => None,
        };
        if self.visible != visible {
            self.visible = visible;
            self.focused = None;
            self.follow_after = None;
        }
        if inputs.busy {
            return None;
        }
        match active {
            None => None,
            Some((id, key, has_agent)) => {
                if needs_view_focus(Some(key), inputs.attach, has_agent, id, self.focused, inputs.platform) {
                    return Some(HerdrViewAction::Focus(id));
                }
                let at = match find_side(inputs.caches, &key.side) {
                    Some(at) => at,
                    None => {
                        return None;
                    },
                };
                proof {
                    side_at_is_first(states(inputs.caches@), key.side@);
                }
                match (side_focus(&inputs.caches[at]), self.follow_after) {
                    (Some((terminal_id, sampled_at)), Some(after)) => {
                        if !inputs.attentive || sampled_at <= after {
                            return None;
                        }
                        self.follow_after = Some(sampled_at);
                        if same(&terminal_id, &key.terminal_id) {
                            None
                        } else {
                            Some(
                                HerdrViewAction::Follow(
                                    HerdrKey { side: key.side.clone(), terminal_id },
                                ),
                            )
                        }
                    },
                    _ => None,
                }
            },
        }
    }
}

proof fn pushed_entry(list: Seq<TrailEntry>, entry: TrailEntry)
    ensures
        trail_of(list.push(entry)) == (match entry_at(list, entry.side@) {
            Some(_) => trail_of(list),
            None => trail_of(list).insert(entry.side@, (entry.terminal_id@, entry.stamped_at)),
        }),
{
    let after = list.push(entry);
    assert(after.drop_last() =~= list);
    match entry_at(list, entry.side@) {
        Some(_) => {
            assert forall|s: SideView| #[trigger] entry_at(after, s) == entry_at(list, s) by {
                entry_at_is_first(list, s);
            }
            assert forall|s: SideView| #[trigger] trail_of(after).dom().contains(s) implies trail_of(after)[s]
                == trail_of(list)[s] by {
                entry_at_is_first(list, s);
                assert(entry_at(after, s) == entry_at(list, s));
            }
            assert(trail_of(after) =~= trail_of(list));
        },
        None => {
            a_stamp_is_one_insert(list, entry);
        },
    }
}

/// Whether the session on screen still owes herdr a focus call.  A direct
/// attach draws its own pane whatever herdr focuses, and an ordinary shell
/// has no pane at all, so neither ever asks.
pub fn needs_view_focus(
    key: Option<&HerdrKey>,
    attach: AttachMode,
    has_agent: bool,
    active: SessionId,
    focused: Option<SessionId>,
    platform: Platform,
) -> (r: bool)
    ensures
        r == (key is Some && !opens_directly((key->0).side@, attach, has_agent, platform) && focused != Some(active)),
{
    match key {
        Some(key) => !attaches_directly(&key.side, attach, has_agent, platform) && focused != Some(active),
        None => false,
    }
}

/// Each endpoint of a list is of a side of its own.
pub open spec fn distinct_sides(caches: Seq<EndpointState>) -> bool {
    forall|i: int, j: int|
        0 <= i < j < caches.len() ==> (#[trigger] caches[i]).side != (#[trigger] caches[j]).side
}

proof fn a_walk_knows_only_what_it_saw(caches: Seq<EndpointState>, active: Option<HerdrKeyView>)
    requires
        distinct_sides(caches),
    ensures
        trail_walk(Map::empty(), caches, active).1 is None,
        forall|side: SideView|
            trail_walk(Map::empty(), caches, active).0.contains_key(side) ==> exists|i: int|
                0 <= i < caches.len() && (#[trigger] caches[i]).side == side,
    decreases caches.len(),
{
    if caches.len() > 0 {
        let front = caches.drop_last();
        assert forall|i: int| 0 <= i < front.len() implies front[i] == #[trigger] caches[i] by {}
        assert(distinct_sides(front)) by {
            assert forall|i: int, j: int| 0 <= i < j < front.len() implies (#[trigger] front[i]).side != (
            #[trigger] front[j]).side by {
                assert(caches[i].side != caches[j].side);
            }
        }
        a_walk_knows_only_what_it_saw(front, active);
        let before = trail_walk(Map::empty(), front, active).0;
        let last = caches.last();
        if before.contains_key(last.side) {
            let i = choose|i: int| 0 <= i < front.len() && (#[trigger] front[i]).side == last.side;
            assert(caches[i].side != caches[caches.len() - 1].side);
        }
        let after = trail_walk(Map::empty(), caches, active).0;
        assert forall|side: SideView| after.contains_key(side) implies exists|i: int|
            0 <= i < caches.len() && (#[trigger] caches[i]).side == side by {
            if side == last.side {
                assert(caches[caches.len() - 1].side == side);
            } else {
                assert(before.contains_key(side));
                let i = choose|i: int| 0 <= i < front.len() && (#[trigger] front[i]).side == side;
                assert(caches[i].side == side);
            }
        }
    }
}

/// Starting up never takes the user anywhere: the first reading of every side
/// is where its focus is, not a change of it.
pub proof fn a_first_sight_is_not_a_change(state: ViewState, facts: ViewFacts)
    requires
        state.trail == Map::<SideView, (Seq<char>, u64)>::empty(),
        distinct_sides(facts.caches),
    ensures
        state.edged(facts).1 is None,
{
    assert(state.trail.restrict(live(facts.caches)) =~= Map::empty());
    a_walk_knows_only_what_it_saw(facts.caches, facts.active_key());
}

/// A focus moved from here is never taken for one the user made inside herdr:
/// neither the pane it was moved to nor a listing already in flight by then
/// makes a change.
pub proof fn a_move_made_here_is_not_a_change(
    state: ViewState,
    key: HerdrKeyView,
    at: u64,
    cache: EndpointState,
    active: Option<HerdrKeyView>,
)
    requires
        cache.side == key.side,
        focus_of(cache) matches Some(seen) ==> seen.0 == key.terminal_id || seen.1 <= at,
    ensures
        trail_step(state.moved(key, at).trail, None, cache, active) == (
            state.moved(key, at).trail,
            None::<HerdrKeyView>,
        ),
{
}

/// With following off, nothing herdr does takes the user anywhere.
pub proof fn following_off_never_follows(state: ViewState, facts: ViewFacts)
    requires
        facts.follow == FollowFocus::Off,
    ensures
        !(state.next(facts).1 matches Some(action) && action is Follow),
{
}

/// One call to herdr at a time: while one is on its way the view calls for
/// nothing.
pub proof fn a_busy_view_calls_for_nothing(state: ViewState, facts: ViewFacts)
    requires
        facts.busy,
    ensures
        state.next(facts).1 is None,
{
}

/// A session that attaches directly, or has no pane, never asks herdr to move.
pub proof fn only_a_shared_view_moves_herdr(state: ViewState, facts: ViewFacts)
    requires
        facts.sharing() is None,
    ensures
        !(state.next(facts).1 matches Some(action) && action is Focus),
{
}

/// A session newly on screen asks herdr for its own pane first, before it
/// follows anything.
pub proof fn a_new_view_asks_for_its_own_pane(state: ViewState, facts: ViewFacts)
    requires
        facts.sharing() is Some,
        state.visible != Some((facts.sharing()->0).0),
        !facts.busy,
    ensures
        state.next(facts).1 == Some(ViewActionView::Focus((facts.sharing()->0).0)),
{
}

/// A listing sampled before the view's own focus call landed cannot send the
/// user back.
pub proof fn a_settled_view_ignores_older_listings(state: ViewState, facts: ViewFacts, at: u64)
    requires
        facts.sharing() is Some,
        state.visible == Some((facts.sharing()->0).0),
        forall|i: int|
            0 <= i < facts.caches.len() ==> (focus_of(#[trigger] facts.caches[i]) matches Some(seen) ==> seen.1
                <= at),
    ensures
        state.settled((facts.sharing()->0).0, true, at).shared(facts).1 is None,
{
    side_at_is_first(facts.caches, (facts.sharing()->0).1.side);
}

} // verus!

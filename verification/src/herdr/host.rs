//! herdr as one of the multiplexers panes are hosted from: the servers it
//! polls, the calls in flight to them, and which pane its shared view is
//! showing.
//!
//! A call is the caller's to run.  What to run comes back from a poll, and
//! what came of it goes into the next.

use vstd::prelude::*;

use crate::herdr::cli::{attach_command, NO_ANSWER};
use crate::herdr::endpoints::{find_side, Endpoints};
#[allow(unused_imports)]
use crate::herdr::endpoints::{side_at, side_at_is_first, states};
use crate::herdr::model::{
    attaches_directly, focus_target_args, AttachMode, HerdrKey, Listing, Settings,
};
#[allow(unused_imports)]
use crate::herdr::model::{focus_words, opens_directly, HerdrKeyView, Indicators};
use crate::herdr::poll::{Action, EndpointCache, Inputs, Landed};
#[allow(unused_imports)]
use crate::herdr::poll::{actions, countable, terminal_at, EndpointState, Link, PaneMetadata, Read};
use crate::herdr::view::{FollowFocus, HerdrViewAction, HerdrViewSync, SessionId, ViewInputs};
#[allow(unused_imports)]
use crate::herdr::view::{ViewActionView, ViewFacts, ViewState};
use crate::json::{object, text, text_or_null, Json};
#[allow(unused_imports)]
use crate::json::{member_trees, Tree};
use crate::multiplexer::listing::{draw_rows, find_listed, ListedPane};
#[allow(unused_imports)]
use crate::multiplexer::listing::{
    flat, listed_at, listed_at_is_first, listed_views, on_side, opt_texts_of, rows, Drawing,
};
use crate::multiplexer::model::{
    AttachAnswer, AttachRequest, CreateAnswer, CreateRequest, CreatedPane, Launch, Managed, MultiplexerKind,
    Pane, PaneKey, PaneTarget,
};
#[allow(unused_imports)]
use crate::multiplexer::model::{
    keys, kind_name, merged_request, target_of, AttachFocus, AttachRequestView, CreateRequestView,
    LaunchView, PaneKeyView, PaneTargetView, PaneView,
};
use crate::side::{Platform, Side};
#[allow(unused_imports)]
use crate::side::{login_shell_argv, shell_line, side_name, SideView};
use crate::text::{chars_of, concat3, has_prefix, is_listed, join, same_opt};
#[allow(unused_imports)]
use crate::text::{joined, opt_text, slices, texts};

verus! {

/// What the config says about herdr.
#[derive(Debug, Clone, Copy, PartialEq, Eq, Structural)]
pub struct HerdrConfig {
    pub enabled: bool,
    /// List every pane, not only those holding an agent.
    pub show_panes: bool,
    /// Draw panes that are in no workspace too.
    pub show_unmatched: bool,
    pub attach: AttachMode,
    pub follow_focus: FollowFocus,
}

/// A shared-view attach waiting on herdr.
#[derive(Debug, PartialEq, Eq)]
pub struct PendingAttach {
    /// Whether its gesture is running.
    pub started: bool,
    /// The pane to focus once the gesture runs.  A pane the listing has since
    /// dropped is focused as this said, since nothing newer says otherwise.
    pub target: PaneTarget,
    pub key: PaneKey,
    pub request: AttachRequest,
}

/// A pending attach, viewed.
pub struct PendingAttachView {
    pub started: bool,
    pub target: PaneTargetView,
    pub key: PaneKeyView,
    pub request: AttachRequestView,
}

impl View for PendingAttach {
    type V = PendingAttachView;

    open spec fn view(&self) -> PendingAttachView {
        PendingAttachView {
            started: self.started,
            target: self.target@,
            key: self.key@,
            request: self.request@,
        }
    }
}

/// A create waiting on herdr.
#[derive(Debug, PartialEq, Eq)]
pub struct PendingCreate {
    pub side: Side,
    pub request: CreateRequest,
}

/// A pending create, viewed.
pub struct PendingCreateView {
    pub side: SideView,
    pub request: CreateRequestView,
}

impl View for PendingCreate {
    type V = PendingCreateView;

    open spec fn view(&self) -> PendingCreateView {
        PendingCreateView { side: self.side@, request: self.request@ }
    }
}

/// The views of pending attaches.
pub open spec fn attaches(list: Seq<PendingAttach>) -> Seq<PendingAttachView> {
    list.map_values(|p: PendingAttach| p@)
}

/// The views of pending creates.
pub open spec fn creates(list: Seq<PendingCreate>) -> Seq<PendingCreateView> {
    list.map_values(|p: PendingCreate| p@)
}

/// The shared view herdr is being pointed at.  The pane is the one the call
/// targets, for stamping the trail on success with the pane herdr is actually
/// on rather than whatever session happens to be active by then.
#[derive(Debug, PartialEq, Eq)]
pub struct HerdrViewFocus {
    pub session: SessionId,
    pub key: PaneKey,
}

/// What a client waiting on an attach whose session closed is told.
pub const CLOSED_BEFORE_ATTACH: &'static str = "the session behind this pane was closed before the attach finished";

/// Everything a host knows.
#[verifier::ext_equal]
pub struct HostState {
    pub config: HerdrConfig,
    pub platform: Platform,
    pub caches: Seq<EndpointState>,
    pub membership: u64,
    pub running: bool,
    pub listing_failed: bool,
    pub last_refresh: Option<u64>,
    pub attach: Seq<PendingAttachView>,
    pub create: Seq<PendingCreateView>,
    pub view: ViewState,
    pub view_focus: Option<(SessionId, PaneKeyView)>,
}

/// The multiplexer's key of a herdr key.
pub open spec fn as_pane_key(key: HerdrKeyView) -> PaneKeyView {
    PaneKeyView { multiplexer: MultiplexerKind::Herdr, side: key.side, terminal_id: key.terminal_id }
}

/// The herdr key of a pane key.
pub open spec fn as_herdr_key(key: PaneKeyView) -> HerdrKeyView {
    HerdrKeyView { side: key.side, terminal_id: key.terminal_id }
}

/// Where the first attach queued for a pane stands.
pub open spec fn attach_at(list: Seq<PendingAttachView>, key: PaneKeyView) -> Option<int>
    decreases list.len(),
{
    if list.len() == 0 {
        None
    } else {
        match attach_at(list.drop_last(), key) {
            Some(at) => Some(at),
            None => if list.last().key == key {
                Some(list.len() - 1)
            } else {
                None
            },
        }
    }
}

/// A pending attach with a second request for the pane folded in.  One that
/// asks for focus drops a background gesture, which changed nothing in herdr,
/// and asks again.
pub open spec fn joined_attach(pending: PendingAttachView, request: AttachRequestView) -> PendingAttachView {
    PendingAttachView {
        started: pending.started && !(request.focus == AttachFocus::Take && pending.request.focus
            != AttachFocus::Take),
        request: merged_request(pending.request, request),
        ..pending
    }
}

/// The queue after an attach was asked for.
pub open spec fn attach_queued(
    list: Seq<PendingAttachView>,
    key: PaneKeyView,
    target: PaneTargetView,
    request: AttachRequestView,
) -> Seq<PendingAttachView> {
    match attach_at(list, key) {
        Some(at) => list.update(at, joined_attach(list[at], request)),
        None => list.push(PendingAttachView { started: false, target, key, request }),
    }
}

/// The endpoints with one side's reconnect due now.
pub open spec fn reconnecting(caches: Seq<EndpointState>, side: SideView, now: u64) -> Seq<EndpointState> {
    match side_at(caches, side) {
        Some(at) => caches.update(
            at,
            EndpointState {
                link: match caches[at].link {
                    Link::Down { failures, retry_at: _ } => Link::Down { failures, retry_at: now },
                    other => other,
                },
                ..caches[at]
            },
        ),
        None => caches,
    }
}

/// The endpoints with one side's streams starting over.
pub open spec fn restarting(caches: Seq<EndpointState>, side: SideView, now: u64) -> Seq<EndpointState> {
    match side_at(caches, side) {
        Some(at) => caches.update(
            at,
            if caches[at].link is Abandoned {
                caches[at]
            } else {
                EndpointState {
                    status: None,
                    link: Link::Down { failures: 0, retry_at: now },
                    ..caches[at]
                }
            },
        ),
        None => caches,
    }
}

/// Whether a refusal says herdr never answered.
pub open spec fn says_no_answer(message: Option<Seq<char>>) -> bool {
    message is Some && NO_ANSWER@.is_prefix_of(message->0)
}

/// The endpoints after a gesture came back.  One that timed out is the only
/// sign of a herdr that hung with its streams still open.
pub open spec fn gesture_noted(caches: Seq<EndpointState>, side: SideView, message: Option<Seq<char>>, now: u64) -> Seq<
    EndpointState,
> {
    if says_no_answer(message) {
        restarting(caches, side, now)
    } else {
        caches
    }
}

/// What refused, where something did.
pub open spec fn refusal<T>(result: Result<T, String>) -> Option<Seq<char>> {
    match result {
        Ok(_) => None,
        Err(message) => Some(message@),
    }
}

/// The rows of every endpoint, side by side.
pub open spec fn sides_of(caches: Seq<EndpointState>) -> Seq<(SideView, Seq<Pane>)> {
    caches.map_values(|c: EndpointState| (c.side, c.agents))
}

/// How many panes the endpoints list.
pub open spec fn count(caches: Seq<EndpointState>) -> nat
    decreases caches.len(),
{
    if caches.len() == 0 {
        0
    } else {
        count(caches.drop_last()) + caches.last().agents.len()
    }
}

/// There are as many rows as panes.
pub proof fn every_pane_has_a_place(caches: Seq<EndpointState>)
    ensures
        flat(sides_of(caches)).len() == count(caches),
    decreases caches.len(),
{
    if caches.len() > 0 {
        every_pane_has_a_place(caches.drop_last());
        assert(sides_of(caches).drop_last() =~= sides_of(caches.drop_last()));
    }
}

/// The pane a side lists under that terminal.
pub open spec fn found(caches: Seq<EndpointState>, side: SideView, terminal_id: Seq<char>) -> Option<Pane> {
    match side_at(caches, side) {
        Some(at) => match listed_at(caches[at].agents, terminal_id) {
            Some(i) => Some(caches[at].agents[i]),
            None => None,
        },
        None => None,
    }
}

/// What is known of a terminal a session is bound to.
pub open spec fn kept(caches: Seq<EndpointState>, side: SideView, terminal_id: Seq<char>) -> Option<PaneMetadata> {
    match side_at(caches, side) {
        Some(at) => match terminal_at(caches[at].attachment, terminal_id) {
            Some(i) => Some(caches[at].attachment[i]),
            None => None,
        },
        None => None,
    }
}

/// Where herdr's focus goes for a pane: as the listing has it, or as the
/// side's full listing last said.
pub open spec fn focus_goal(caches: Seq<EndpointState>, key: PaneKeyView) -> Option<PaneTargetView> {
    match found(caches, key.side, key.terminal_id) {
        Some(pane) => Some(target_of(pane@, key.side)),
        None => match kept(caches, key.side, key.terminal_id) {
            Some(pane) => Some(target_of(pane.agent@, key.side)),
            None => None,
        },
    }
}

/// The session running on a side, once it is known.
pub open spec fn session_of(caches: Seq<EndpointState>, side: SideView) -> Option<Seq<char>> {
    match side_at(caches, side) {
        Some(at) => match caches[at].session_name {
            Read::Done(name) => Some(name@),
            _ => None,
        },
        None => None,
    }
}

/// The sides whose herdr is answering, in order.
pub open spec fn answering(caches: Seq<EndpointState>) -> Seq<SideView>
    decreases caches.len(),
{
    if caches.len() == 0 {
        Seq::empty()
    } else {
        let front = answering(caches.drop_last());
        if caches.last().sampled_at is Some {
            front.push(caches.last().side)
        } else {
            front
        }
    }
}

/// How sides are spelled.
pub open spec fn side_names(sides: Seq<SideView>) -> Seq<Seq<char>> {
    sides.map_values(|side: SideView| side_name(side))
}

/// The side a create that named none happens on, among those that answer.
pub open spec fn landing_side(sides: Seq<SideView>) -> Result<SideView, Seq<char>> {
    if sides.len() == 1 {
        Ok(sides[0])
    } else if sides.len() == 0 {
        Err("no herdr server is answering; start one, or name a side"@)
    } else {
        Err("no herdr session is focused and "@ + joined(side_names(sides), " and "@) + " are answering; name one"@)
    }
}

/// When a full listing newer than `bound_at` said that the terminal is gone.
pub open spec fn gone_at(caches: Seq<EndpointState>, side: SideView, terminal_id: Seq<char>, bound_at: u64) -> Option<u64> {
    match side_at(caches, side) {
        Some(at) => match caches[at].inventory {
            Some((sampled_at, ids)) => if sampled_at > bound_at && !ids.contains(terminal_id) {
                Some(sampled_at)
            } else {
                None
            },
            None => None,
        },
        None => None,
    }
}

/// A gesture to run: focus the pane where focus is to be taken, then attach to
/// the session, asking for its name where it is not known.
#[derive(Debug, PartialEq, Eq)]
pub struct Gesture {
    pub target: PaneTarget,
    /// The `herdr` subcommand that focuses the pane first.
    pub focus: Option<Vec<String>>,
    pub name: Option<String>,
}

/// What polling the attach queue came to.
#[derive(Debug, PartialEq, Eq)]
pub struct AttachPoll {
    pub answer: Option<AttachAnswer>,
    /// Whether the next attach in line has yet to start.
    pub starting: bool,
    /// The gesture to run for the attach at the head of the line.
    pub gesture: Option<Gesture>,
}

/// What a view sync came to.
#[derive(Debug, PartialEq, Eq)]
pub struct ViewStep {
    /// Go where herdr's focus went.
    pub follow: Option<PaneKey>,
    pub repaint: bool,
    /// Run this `herdr` subcommand on that side.
    pub focus: Option<(Side, Vec<String>)>,
}

/// What a view sync is told.
pub struct ViewSync<'a> {
    /// The active session, the pane it holds and whether that pane has an
    /// agent.
    pub active: Option<(SessionId, Option<&'a PaneKey>, bool)>,
    pub attentive: bool,
    /// The sessions that are open.
    pub open: &'a Vec<SessionId>,
    /// What came of the focus call in flight.
    pub focus: Landed<Result<(), String>>,
    pub now: u64,
}

impl HostState {
    /// An attach was asked for.
    pub open spec fn attach_asked(
        self,
        key: PaneKeyView,
        target: PaneTargetView,
        request: AttachRequestView,
        now: u64,
    ) -> Self {
        HostState {
            caches: reconnecting(self.caches, key.side, now),
            attach: attach_queued(self.attach, key, target, request),
            ..self
        }
    }

    /// The pane a gesture for the head of the line focuses.
    pub open spec fn head_target(self) -> PaneTargetView {
        let head = self.attach[0];
        match found(self.caches, head.key.side, head.key.terminal_id) {
            Some(pane) => target_of(pane@, head.key.side),
            None => head.target,
        }
    }

    /// Whether the attach queue may move.  Attach gestures and focus calls
    /// both change herdr's global focus, so only one may be in flight.
    pub open spec fn attach_idle(self) -> bool {
        self.view_focus is Some || self.attach.len() == 0
    }

    /// What the gesture at the head of the line came to.
    pub open spec fn head_launch(self, landed: Landed<Result<Launch, String>>) -> Option<Result<LaunchView, Seq<char>>> {
        if self.attach_idle() || !self.attach[0].started {
            None
        } else {
            match landed {
                Landed::Waiting => None,
                Landed::Value(Ok(launch)) => Some(Ok(launch@)),
                Landed::Value(Err(message)) => Some(Err(message@)),
                Landed::Panicked => Some(Err("the herdr attach did not finish"@)),
            }
        }
    }

    /// After the attach queue was polled.
    pub open spec fn attach_polled(self, landed: Landed<Result<Launch, String>>, now: u64) -> Self {
        if self.attach_idle() {
            self
        } else if !self.attach[0].started {
            HostState {
                attach: self.attach.update(0, PendingAttachView { started: true, ..self.attach[0] }),
                ..self
            }
        } else {
            match self.head_launch(landed) {
                None => self,
                Some(launch) => HostState {
                    caches: gesture_noted(
                        self.caches,
                        self.attach[0].key.side,
                        match launch {
                            Ok(_) => None,
                            Err(message) => Some(message),
                        },
                        now,
                    ),
                    attach: self.attach.drop_first(),
                    ..self
                },
            }
        }
    }

    /// The view facts a sync decides from.
    pub open spec fn facts(
        self,
        active: Option<(SessionId, Option<PaneKeyView>, bool)>,
        attentive: bool,
    ) -> ViewFacts {
        ViewFacts {
            active: match active {
                Some((id, Some(key), has_agent)) => Some((id, Some(as_herdr_key(key)), has_agent)),
                Some((id, None, has_agent)) => Some((id, None, has_agent)),
                None => None,
            },
            attach: self.config.attach,
            follow: self.config.follow_focus,
            caches: self.caches,
            attentive,
            busy: self.view_focus is Some || self.attach.len() > 0,
            platform: self.platform,
        }
    }

    /// After the focus call in flight came back, or did not.
    pub open spec fn focus_landed(self, open: bool, landed: Landed<Result<(), String>>, now: u64) -> Self {
        let (session, key) = self.view_focus->0;
        if !open {
            HostState { view_focus: None, ..self }
        } else {
            match landed {
                Landed::Waiting => self,
                Landed::Panicked => HostState {
                    view_focus: None,
                    view: self.view.settled(session, false, now),
                    ..self
                },
                Landed::Value(result) => HostState {
                    view_focus: None,
                    caches: gesture_noted(self.caches, key.side, refusal(result), now),
                    view: if result is Ok {
                        self.view.moved(as_herdr_key(key), now).settled(session, true, now)
                    } else {
                        self.view.settled(session, false, now)
                    },
                    ..self
                },
            }
        }
    }

    /// After a view sync: the standing, where to go, and what to focus.
    pub open spec fn synced(
        self,
        active: Option<(SessionId, Option<PaneKeyView>, bool)>,
        attentive: bool,
        open: Seq<SessionId>,
        landed: Landed<Result<(), String>>,
        now: u64,
    ) -> (Self, Option<PaneKeyView>, Option<(SideView, Seq<Seq<char>>)>) {
        let (view, action) = self.view.next(self.facts(active, attentive));
        let s = HostState { view, ..self };
        if self.view_focus is Some {
            (s.focus_landed(open.contains((self.view_focus->0).0), landed, now), None, None)
        } else {
            match action {
                None => (s, None, None),
                Some(ViewActionView::Follow(key)) => (s, Some(as_pane_key(key)), None),
                Some(ViewActionView::Focus(id)) => match active {
                    Some((_, Some(key), _)) => match focus_goal(self.caches, key) {
                        None => (s, None, None),
                        Some(target) => (
                            HostState { view_focus: Some((id, key)), ..s },
                            None,
                            Some((key.side, focus_words(target.has_agent, target.tab_id, target.pane_id))),
                        ),
                    },
                    _ => (s, None, None),
                },
            }
        }
    }

    /// After a session closed: its own queued attach is gone, and nothing
    /// else's.
    pub open spec fn session_closed(self, id: SessionId, key: Option<PaneKeyView>) -> Self {
        HostState {
            attach: match key {
                Some(key) => self.attach.filter(|p: PendingAttachView| p.key != key),
                None => self.attach,
            },
            view_focus: match self.view_focus {
                Some((session, pane)) => if session == id {
                    None
                } else {
                    Some((session, pane))
                },
                None => None,
            },
            view: self.view.closed(id),
            ..self
        }
    }
}

/// The clients waiting on the attaches queued for a pane, in order.
pub open spec fn waiting_on(list: Seq<PendingAttachView>, key: PaneKeyView) -> Seq<u64>
    decreases list.len(),
{
    if list.len() == 0 {
        Seq::empty()
    } else {
        let front = waiting_on(list.drop_last(), key);
        if list.last().key == key {
            front + list.last().request.waiters
        } else {
            front
        }
    }
}

/// herdr, hosting panes.
pub struct Herdr {
    pub config: HerdrConfig,
    pub platform: Platform,
    /// The herdr servers talked to: the native side plus one per running WSL
    /// distro, kept in step with which distros are up.
    pub endpoints: Endpoints,
    pub pending_attach: Vec<PendingAttach>,
    pub pending_create: Vec<PendingCreate>,
    /// The shared view herdr was last focused for, and the call still on its
    /// way, both owned by `sync_view`.
    pub focused_view: HerdrViewSync,
    pub view_focus: Option<HerdrViewFocus>,
}

impl View for Herdr {
    type V = HostState;

    open spec fn view(&self) -> HostState {
        HostState {
            config: self.config,
            platform: self.platform,
            caches: states(self.endpoints.caches@),
            membership: self.endpoints.membership,
            running: self.endpoints.running,
            listing_failed: self.endpoints.listing_failed,
            last_refresh: self.endpoints.last_refresh,
            attach: attaches(self.pending_attach@),
            create: creates(self.pending_create@),
            view: self.focused_view@,
            view_focus: match self.view_focus {
                Some(f) => Some((f.session, f.key@)),
                None => None,
            },
        }
    }
}

proof fn attach_at_is_first(list: Seq<PendingAttachView>, key: PaneKeyView)
    ensures
        match attach_at(list, key) {
            Some(at) => 0 <= at < list.len() && list[at].key == key && forall|k: int|
                0 <= k < at ==> (#[trigger] list[k]).key != key,
            None => forall|k: int| 0 <= k < list.len() ==> (#[trigger] list[k]).key != key,
        },
    decreases list.len(),
{
    if list.len() > 0 {
        let front = list.drop_last();
        attach_at_is_first(front, key);
        assert forall|k: int| 0 <= k < front.len() implies front[k] == #[trigger] list[k] by {}
    }
}

fn find_attach(list: &Vec<PendingAttach>, key: &PaneKey) -> (r: Option<usize>)
    ensures
        (match r {
            Some(at) => Some(at as int),
            None => None,
        }) == attach_at(attaches(list@), key@),
        r matches Some(at) ==> at < list@.len(),
{
    let ghost all = attaches(list@);
    let mut i: usize = 0;
    while i < list.len()
        invariant
            i <= list@.len(),
            all == attaches(list@),
            forall|k: int| 0 <= k < i ==> (#[trigger] all[k]).key != key@,
        decreases list@.len() - i,
    {
        assert(all[i as int] == list@[i as int]@);
        if list[i].key.same_key(key) {
            proof {
                attach_at_is_first(all, key@);
                let found = attach_at(all, key@);
                if found is Some && found->0 < i {
                    assert(all[found->0].key != key@);
                }
            }
            return Some(i);
        }
        i += 1;
    }
    proof {
        attach_at_is_first(all, key@);
    }
    None
}

fn herdr_key_of(key: &PaneKey) -> (r: HerdrKey)
    ensures
        r@ == as_herdr_key(key@),
{
    HerdrKey { side: key.side.clone(), terminal_id: key.terminal_id.clone() }
}

fn begins_no_answer(message: &str) -> (r: bool)
    ensures
        r == NO_ANSWER@.is_prefix_of(message@),
{
    has_prefix(&chars_of(message), NO_ANSWER)
}

impl Herdr {
    /// herdr with the native side alone, and nothing asked of it.
    pub fn new(config: HerdrConfig, platform: Platform, now: u64) -> (r: Self)
        ensures
            r@ == (HostState {
                config,
                platform,
                caches: seq![EndpointState::fresh(SideView::Native, now)],
                membership: 0,
                running: false,
                listing_failed: false,
                last_refresh: None,
                attach: Seq::empty(),
                create: Seq::empty(),
                view: ViewState::fresh(),
                view_focus: None,
            }),
    {
        let r = Herdr {
            config,
            platform,
            endpoints: Endpoints::new(now),
            pending_attach: Vec::new(),
            pending_create: Vec::new(),
            focused_view: HerdrViewSync::new(),
            view_focus: None,
        };
        assert(r@.attach =~= Seq::empty());
        assert(r@.create =~= Seq::empty());
        r
    }

    fn cache(&self, side: &Side) -> (r: Option<&EndpointCache>)
        ensures
            match side_at(self@.caches, side@) {
                Some(at) => r matches Some(cache) && cache@ == self@.caches[at],
                None => r is None,
            },
    {
        proof {
            side_at_is_first(self@.caches, side@);
        }
        match find_side(&self.endpoints.caches, side) {
            Some(at) => Some(&self.endpoints.caches[at]),
            None => None,
        }
    }

    /// What herdr's config says on `side`, once that endpoint's read has
    /// landed.
    pub fn settings(&self, side: &Side) -> (r: Settings)
        ensures
            r == (match side_at(self@.caches, side@) {
                Some(at) => match self@.caches[at].settings {
                    Read::Done(settings) => settings,
                    _ => Settings { detach: None, indicators: Indicators::Dots },
                },
                None => Settings { detach: None, indicators: Indicators::Dots },
            }),
    {
        match self.cache(side) {
            Some(cache) => cache.settings(),
            None => Settings::default(),
        }
    }

    /// A gesture that timed out is the only sign of a herdr that hung with
    /// its streams still open, so that side's streams start over.
    fn note_gesture(&mut self, side: &Side, refused: Option<&str>, now: u64)
        ensures
            final(self)@ == (HostState {
                caches: gesture_noted(
                    old(self)@.caches,
                    side@,
                    match refused {
                        Some(message) => Some(message@),
                        None => None,
                    },
                    now,
                ),
                ..old(self)@
            }),
    {
        let silent = match refused {
            Some(message) => begins_no_answer(message),
            None => false,
        };
        if silent {
            if let Some(at) = find_side(&self.endpoints.caches, side) {
                let ghost before = states(self.endpoints.caches@);
                proof {
                    side_at_is_first(before, side@);
                }
                self.endpoints.caches[at].restart(now);
                assert(states(self.endpoints.caches@) =~= before.update(
                    at as int,
                    self.endpoints.caches@[at as int]@,
                ));
            }
        }
    }

    /// A user reaching for a side is the moment its herdr being up matters,
    /// so a side waiting out its backoff reconnects now.
    fn reconnect_now(&mut self, side: &Side, now: u64)
        ensures
            final(self)@ == (HostState { caches: reconnecting(old(self)@.caches, side@, now), ..old(self)@ }),
    {
        if let Some(at) = find_side(&self.endpoints.caches, side) {
            let ghost before = states(self.endpoints.caches@);
            proof {
                side_at_is_first(before, side@);
            }
            self.endpoints.caches[at].reconnect_now(now);
            assert(states(self.endpoints.caches@) =~= before.update(
                at as int,
                self.endpoints.caches@[at as int]@,
            ));
        }
    }

    /// Where herdr's focus goes for the pane a session is bound to.  The
    /// displayed listing drops a pane with no agent in it unless panes are
    /// shown, so a bound shell pane is found through what the side's full
    /// listing last said about it.
    pub fn focus_target(&self, key: &PaneKey) -> (r: Option<PaneTarget>)
        ensures
            (match r {
                Some(target) => Some(target@),
                None => None,
            }) == focus_goal(self@.caches, key@),
    {
        match self.cache(&key.side) {
            None => None,
            Some(cache) => match find_listed(cache.agents(), &key.terminal_id) {
                Some(i) => Some(cache.agents()[i].target(&key.side)),
                None => match cache.attachment_pane(&key.terminal_id) {
                    Some(pane) => Some(pane.agent.target(&key.side)),
                    None => None,
                },
            },
        }
    }

    /// Whether herdr is switched on.
    pub fn enabled(&self) -> (r: bool)
        ensures
            r == self@.config.enabled,
    {
        self.config.enabled
    }

    /// Refreshes one side's agents, with what came of its work.  Nothing is
    /// asked of a herdr that is switched off.
    pub fn poll(&mut self, side: &Side, attached: bool, inputs: Inputs, now: u64) -> (r: Option<Vec<Action>>)
        requires
            countable(now),
        ensures
            match side_at(old(self)@.caches, side@) {
                Some(at) if old(self)@.config.enabled => {
                    let before = old(self)@.caches[at];
                    let after = (EndpointState { actions: Seq::empty(), ..before }).polled(
                        if old(self)@.config.show_panes {
                            Listing::Panes
                        } else {
                            Listing::Agents
                        },
                        attached,
                        inputs,
                        now,
                    );
                    &&& r is Some
                    &&& actions((r->0)@) == after.actions
                    &&& final(self)@ == (HostState {
                        caches: old(self)@.caches.update(at, EndpointState { actions: Seq::empty(), ..after }),
                        ..old(self)@
                    })
                },
                _ => r is None && final(self)@ == old(self)@,
            },
    {
        if !self.config.enabled {
            return None;
        }
        self.endpoints.poll(side, Listing::wanted(self.config.show_panes), attached, inputs, now)
    }

    /// One number standing for everything listed.
    pub fn generation(&self) -> (r: u64)
        ensures
            r as int == crate::herdr::endpoints::set_generation(self@.membership, self@.caches),
    {
        self.endpoints.generation()
    }

    /// Every listed pane with its side, in order.
    pub fn panes(&self) -> (r: Vec<(&Side, &Pane)>)
        ensures
            rows(r@) == flat(sides_of(self@.caches)),
    {
        let ghost all = self@.caches;
        let mut out: Vec<(&Side, &Pane)> = Vec::new();
        let mut i: usize = 0;
        proof {
            assert(sides_of(all).take(0) =~= Seq::<(SideView, Seq<Pane>)>::empty());
            assert(rows(out@) =~= Seq::empty());
        }
        while i < self.endpoints.caches.len()
            invariant
                i <= self.endpoints.caches@.len(),
                all == states(self.endpoints.caches@),
                rows(out@) == flat(sides_of(all).take(i as int)),
            decreases self.endpoints.caches@.len() - i,
        {
            let ghost upto = sides_of(all).take(i + 1);
            assert(upto.drop_last() =~= sides_of(all).take(i as int));
            let cache = &self.endpoints.caches[i];
            assert(upto.last() == (cache.side@, cache.agents@));
            let ghost base = rows(out@);
            let mut j: usize = 0;
            proof {
                assert(base + on_side(cache.side@, cache.agents@.take(0)) =~= base);
            }
            while j < cache.agents.len()
                invariant
                    j <= cache.agents@.len(),
                    rows(out@) == base + on_side(cache.side@, cache.agents@.take(j as int)),
                decreases cache.agents@.len() - j,
            {
                let ghost before = out@;
                out.push((&cache.side, &cache.agents[j]));
                proof {
                    assert(rows(out@) =~= rows(before).push((cache.side@, cache.agents@[j as int])));
                    assert(base + on_side(cache.side@, cache.agents@.take(j + 1)) =~= (base + on_side(
                        cache.side@,
                        cache.agents@.take(j as int),
                    )).push((cache.side@, cache.agents@[j as int])));
                }
                j += 1;
            }
            assert(cache.agents@.take(cache.agents@.len() as int) =~= cache.agents@);
            i += 1;
        }
        assert(sides_of(all).take(all.len() as int) =~= sides_of(all));
        out
    }

    /// Where a pane stands across every side's listing.
    pub fn pane_index(&self, side: &Side, terminal_id: &str) -> (r: Option<usize>)
        requires
            count(self@.caches) <= usize::MAX,
        ensures
            match side_at(self@.caches, side@) {
                Some(at) => match listed_at(self@.caches[at].agents, terminal_id@) {
                    Some(i) => r matches Some(n) && n == count(self@.caches.take(at)) + i,
                    None => r is None,
                },
                None => r is None,
            },
    {
        let ghost all = self@.caches;
        proof {
            side_at_is_first(all, side@);
            assert(all.take(0) =~= Seq::<EndpointState>::empty());
        }
        let mut before: usize = 0;
        let mut i: usize = 0;
        while i < self.endpoints.caches.len()
            invariant
                i <= self.endpoints.caches@.len(),
                all == states(self.endpoints.caches@),
                count(all) <= usize::MAX,
                before == count(all.take(i as int)),
                match side_at(all, side@) {
                    Some(at) => i <= at < all.len() && all[at].side == side@ && forall|k: int|
                        0 <= k < at ==> (#[trigger] all[k]).side != side@,
                    None => forall|k: int| 0 <= k < all.len() ==> (#[trigger] all[k]).side != side@,
                },
            decreases self.endpoints.caches@.len() - i,
        {
            let cache = &self.endpoints.caches[i];
            assert(all[i as int] == cache@);
            proof {
                assert(all.take(i + 1).drop_last() =~= all.take(i as int));
                count_grows(all, i + 1);
            }
            if cache.side.same_side(side) {
                proof {
                    listed_at_is_first(cache.agents@, terminal_id@);
                }
                return match find_listed(&cache.agents, terminal_id) {
                    Some(at) => Some(before + at),
                    None => None,
                };
            }
            before = before + cache.agents.len();
            i += 1;
        }
        None
    }

    /// How many panes are listed.
    pub fn pane_count(&self) -> (r: usize)
        requires
            count(self@.caches) <= usize::MAX,
        ensures
            r == count(self@.caches),
    {
        let ghost all = self@.caches;
        let mut sum: usize = 0;
        let mut i: usize = 0;
        proof {
            assert(all.take(0) =~= Seq::<EndpointState>::empty());
        }
        while i < self.endpoints.caches.len()
            invariant
                i <= self.endpoints.caches@.len(),
                all == states(self.endpoints.caches@),
                count(all) <= usize::MAX,
                sum == count(all.take(i as int)),
            decreases self.endpoints.caches@.len() - i,
        {
            proof {
                assert(all.take(i + 1).drop_last() =~= all.take(i as int));
                count_grows(all, i + 1);
            }
            assert(all[i as int] == self.endpoints.caches@[i as int]@);
            sum = sum + self.endpoints.caches[i].agents.len();
            i += 1;
        }
        assert(all.take(all.len() as int) =~= all);
        sum
    }

    /// The pane a side lists under that terminal.
    pub fn find(&self, side: &Side, terminal_id: &str) -> (r: Option<&Pane>)
        ensures
            (match r {
                Some(pane) => Some(*pane),
                None => None,
            }) == found(self@.caches, side@, terminal_id@),
    {
        match self.cache(side) {
            None => None,
            Some(cache) => match find_listed(cache.agents(), terminal_id) {
                Some(i) => Some(&cache.agents()[i]),
                None => None,
            },
        }
    }

    /// What is known of a pane a session holds, and whether it is current.
    pub fn retained(&self, side: &Side, terminal_id: &str) -> (r: Option<(&Pane, bool)>)
        ensures
            (match r {
                Some((pane, current)) => Some(PaneMetadata { agent: *pane, current }),
                None => None,
            }) == kept(self@.caches, side@, terminal_id@),
    {
        match self.cache(side) {
            None => None,
            Some(cache) => match cache.attachment_pane(terminal_id) {
                Some(pane) => Some((&pane.agent, pane.current)),
                None => None,
            },
        }
    }

    /// Every listed pane no session holds.  `directories` gives, in the order
    /// of `panes` and for each pane in a distro, the path Windows sees its
    /// directory under.
    pub fn listed(
        &self,
        claimed: &Vec<PaneKey>,
        workspaces: &Vec<String>,
        directories: &Vec<Option<String>>,
    ) -> (r: Vec<ListedPane>)
        requires
            directories@.len() == count(self@.caches),
        ensures
            listed_views(r@) == (if self@.config.enabled {
                (Drawing {
                    kind: MultiplexerKind::Herdr,
                    claimed: keys(claimed@),
                    workspaces: texts(workspaces@),
                    platform: self@.platform,
                    show_unmatched: self@.config.show_unmatched,
                }).rows(flat(sides_of(self@.caches)), opt_texts_of(directories@))
            } else {
                Seq::empty()
            }),
    {
        if !self.config.enabled {
            let none: Vec<ListedPane> = Vec::new();
            assert(listed_views(none@) =~= Seq::empty());
            return none;
        }
        let list = self.panes();
        proof {
            every_pane_has_a_place(self@.caches);
            assert(rows(list@).len() == list@.len());
        }
        draw_rows(
            &list,
            directories,
            MultiplexerKind::Herdr,
            claimed,
            workspaces,
            self.platform,
            self.config.show_unmatched,
        )
    }

    /// The side a create that named none happens on: the one side whose herdr
    /// is answering.
    pub fn default_side(&self) -> (r: Result<Side, String>)
        ensures
            (match r {
                Ok(side) => Ok(side@),
                Err(message) => Err(message@),
            }) == landing_side(answering(self@.caches)),
            ({
                let sides = answering(self@.caches);
                if sides.len() == 1 {
                    r matches Ok(side) && side@ == sides[0]
                } else if sides.len() == 0 {
                    r matches Err(message) && message@
                        == "no herdr server is answering; start one, or name a side"@
                } else {
                    r matches Err(message) && message@ == "no herdr session is focused and "@ + joined(
                        side_names(sides),
                        " and "@,
                    ) + " are answering; name one"@
                }
            }),
    {
        // A cache holds a sample time only while it still holds a listing, so
        // a side whose rows are gone is not offered as the one a create meant.
        let ghost all = self@.caches;
        let mut names: Vec<String> = Vec::new();
        let mut only: Option<Side> = None;
        let mut i: usize = 0;
        proof {
            assert(all.take(0) =~= Seq::<EndpointState>::empty());
            assert(texts(names@) =~= side_names(Seq::<SideView>::empty()));
        }
        while i < self.endpoints.caches.len()
            invariant
                i <= self.endpoints.caches@.len(),
                all == states(self.endpoints.caches@),
                texts(names@) == side_names(answering(all.take(i as int))),
                answering(all.take(i as int)).len() > 0 ==> only is Some && (only->0)@ == answering(
                    all.take(i as int),
                )[0],
                answering(all.take(i as int)).len() == 0 ==> only is None,
            decreases self.endpoints.caches@.len() - i,
        {
            let ghost sides = answering(all.take(i as int));
            assert(all.take(i + 1).drop_last() =~= all.take(i as int));
            let cache = &self.endpoints.caches[i];
            assert(all.take(i + 1).last() == cache@);
            if cache.sampled_at().is_some() {
                let ghost before = names@;
                names.push(cache.side().name());
                proof {
                    assert(texts(names@) =~= texts(before).push(side_name(cache.side@)));
                    assert(side_names(sides.push(cache.side@)) =~= side_names(sides).push(side_name(cache.side@)));
                }
                if only.is_none() {
                    only = Some(cache.side().clone());
                }
            }
            i += 1;
        }
        assert(all.take(all.len() as int) =~= all);
        assert(texts(names@).len() == names@.len());
        assert(side_names(answering(all)).len() == answering(all).len());
        if names.len() == 0 {
            return Err("no herdr server is answering; start one, or name a side".to_owned());
        }
        match only {
            Some(side) if names.len() == 1 => Ok(side),
            _ => Err(
                concat3(
                    "no herdr session is focused and ",
                    join(&names, " and ").as_str(),
                    " are answering; name one",
                ),
            ),
        }
    }

    /// When a full listing newer than the binding said the terminal is gone.
    pub fn gone_since(&self, side: &Side, terminal_id: &str, bound_at: u64) -> (r: Option<u64>)
        ensures
            r == gone_at(self@.caches, side@, terminal_id@, bound_at),
            r == (match side_at(self@.caches, side@) {
                Some(at) => match self@.caches[at].inventory {
                    Some((sampled_at, ids)) => if sampled_at > bound_at && !ids.contains(terminal_id@) {
                        Some(sampled_at)
                    } else {
                        None
                    },
                    None => None,
                },
                None => None,
            }),
    {
        match self.cache(side) {
            None => None,
            Some(cache) => match cache.inventory() {
                None => None,
                Some(inventory) => if inventory.sampled_at > bound_at && !is_listed(
                    &inventory.terminal_ids,
                    terminal_id,
                ) {
                    Some(inventory.sampled_at)
                } else {
                    None
                },
            },
        }
    }

    /// What a client is told about a pane.  The pane's own id and tab are null
    /// when the listing does not carry the pane, which says the cache does not
    /// know right now rather than that the pane is gone.
    pub fn pane_json(&self, side: &Side, terminal_id: &str, pane: Option<&Pane>) -> (r: Json)
        ensures
            r@ == Tree::Object(
                pane_members(
                    session_of(self@.caches, side@),
                    side@,
                    terminal_id@,
                    match pane {
                        Some(pane) => Some(pane@),
                        None => None,
                    },
                ),
            ),
    {
        let session = match self.cache(side) {
            Some(cache) => cache.session_name(),
            None => None,
        };
        let (pane_id, tab_id) = match pane {
            Some(pane) => (Some(pane.pane_id.clone()), pane.tab_id.clone()),
            None => (None, None),
        };
        let mut members: Vec<(String, Json)> = Vec::new();
        members.push(("name".to_owned(), text(MultiplexerKind::Herdr.name())));
        members.push(("side".to_owned(), text(side.name().as_str())));
        members.push(("session".to_owned(), text_or_null(&session)));
        members.push(("terminal_id".to_owned(), text(terminal_id)));
        members.push(("pane_id".to_owned(), text_or_null(&pane_id)));
        members.push(("tab_id".to_owned(), text_or_null(&tab_id)));
        let ghost view = match pane {
            Some(pane) => Some(pane@),
            None => None,
        };
        assert(member_trees(members@) =~= pane_members(
            session_of(self@.caches, side@),
            side@,
            terminal_id@,
            view,
        ));
        object(members)
    }

    /// How a row describes a pane.  A title saying no more than the kind is
    /// dropped, so the row names the agent once rather than twice.
    pub fn managed(&self, side: &Side, pane: Option<&Pane>) -> (r: Managed)
        ensures
            r.multiplexer == MultiplexerKind::Herdr,
            r.detach == (match side_at(self@.caches, side@) {
                Some(at) => match self@.caches[at].settings {
                    Read::Done(settings) => settings.detach,
                    _ => None,
                },
                None => None,
            }),
            r.shared_view == !opens_directly(
                side@,
                self@.config.attach,
                pane is None || (pane->0).status is Some,
                self@.platform,
            ),
            match pane {
                None => r.kind is None && r.title is None && r.status is None,
                Some(pane) => {
                    &&& r.status == pane.status
                    &&& opt_text(r.kind) == opt_text(pane.kind)
                    &&& opt_text(r.title) == (if opt_text(pane.title) == opt_text(pane.kind) {
                        None
                    } else {
                        opt_text(pane.title)
                    })
                },
            },
    {
        let settings = self.settings(side);
        let (kind, title, status) = match pane {
            None => (None, None, None),
            Some(pane) => (
                pane.kind.clone(),
                if same_opt(&pane.title, &pane.kind) {
                    None
                } else {
                    pane.title.clone()
                },
                pane.status,
            ),
        };
        let has_agent = match pane {
            None => true,
            Some(pane) => pane.status.is_some(),
        };
        Managed {
            multiplexer: MultiplexerKind::Herdr,
            detach: settings.detach,
            shared_view: !self.attaches_directly(side, has_agent),
            kind,
            title,
            status,
        }
    }

    /// Whether a row on `side` opens the pane alone.
    pub fn attaches_directly(&self, side: &Side, has_agent: bool) -> (r: bool)
        ensures
            r == opens_directly(side@, self@.config.attach, has_agent, self@.platform),
    {
        attaches_directly(side, self.config.attach, has_agent, self.platform)
    }

    /// The command that opens a pane on its own, where herdr can hand it over.
    pub fn open_directly(&self, target: &PaneTarget, program: &str) -> (r: Option<Launch>)
        ensures
            r is Some <==> opens_directly(target.side@, self@.config.attach, target.has_agent, self@.platform),
            r matches Some(launch) ==> launch@ == side_launch(
                target.side@,
                program@,
                seq!["agent"@, "attach"@, target.pane_id@],
            ),
    {
        open_multiplexer_session(target, self.config.attach, self.platform, program)
    }

    /// The command that shares herdr's whole view.  herdr runs one session per
    /// server, so the side alone names the view.
    pub fn shared_view(&self, key: &PaneKey, program: &str) -> (r: Option<Launch>)
        ensures
            match session_of(self@.caches, key.side@) {
                Some(name) => r matches Some(launch) && launch@ == side_launch(
                    key.side@,
                    program@,
                    seq!["session"@, "attach"@, name],
                ),
                None => r is None,
            },
    {
        let session = match self.cache(&key.side) {
            Some(cache) => cache.session_name(),
            None => None,
        };
        match session {
            None => None,
            Some(name) => {
                let (program, argv) = attach_command(&key.side, program, &name);
                Some(Launch { program, argv })
            },
        }
    }

    /// Every one of herdr's app clients draws the same focused pane, so a
    /// shared view shows a row's pane only while herdr is focused there.
    pub fn queue_attach(&mut self, key: PaneKey, target: PaneTarget, request: AttachRequest, now: u64)
        ensures
            final(self)@ == old(self)@.attach_asked(key@, target@, request@, now),
    {
        self.reconnect_now(&key.side, now);
        let ghost before = self.pending_attach@;
        let ghost start = self@;
        match find_attach(&self.pending_attach, &key) {
            Some(at) => {
                let takes = request.focus.takes() && !self.pending_attach[at].request.focus.takes();
                let ghost joining = request@;
                proof {
                    attach_at_is_first(attaches(before), key@);
                }
                self.pending_attach[at].request.merge(request);
                if takes {
                    // A background gesture changes nothing in herdr, so
                    // dropping it and asking again with focus is safe.
                    self.pending_attach[at].started = false;
                }
                assert(self.pending_attach@[at as int]@ == joined_attach(before[at as int]@, joining));
                assert(attaches(self.pending_attach@) =~= attaches(before).update(
                    at as int,
                    joined_attach(attaches(before)[at as int], joining),
                ));
            },
            None => {
                let pending = PendingAttach { started: false, target, key, request };
                self.pending_attach.push(pending);
                assert(attaches(self.pending_attach@) =~= attaches(before).push(pending@));
            },
        }
    }

    /// Moves the attach at the head of the line on: it is answered where its
    /// gesture has come back, and its gesture is asked for where it has not
    /// started.
    pub fn poll_attach(&mut self, landed: Landed<Result<Launch, String>>, now: u64) -> (r: AttachPoll)
        ensures
            final(self)@ == old(self)@.attach_polled(landed, now),
            match old(self)@.head_launch(landed) {
                None => r.answer is None,
                Some(launch) => r.answer matches Some(answer) && {
                    &&& answer.key@ == old(self)@.attach[0].key
                    &&& answer.request@ == old(self)@.attach[0].request
                    &&& (match answer.launch {
                        Ok(l) => Ok(l@),
                        Err(message) => Err(message@),
                    }) == launch
                },
            },
            r.starting == (!old(self)@.attach_idle() && final(self)@.attach.len() > 0
                && !final(self)@.attach[0].started),
            match r.gesture {
                None => old(self)@.attach_idle() || old(self)@.attach[0].started,
                Some(gesture) => {
                    &&& !old(self)@.attach_idle() && !old(self)@.attach[0].started
                    &&& gesture.target@ == old(self)@.head_target()
                    &&& opt_text(gesture.name) == session_of(old(self)@.caches, old(self)@.attach[0].key.side)
                    &&& (match gesture.focus {
                        Some(words) => Some(texts(words@)),
                        None => None,
                    }) == (if old(self)@.attach[0].request.focus == AttachFocus::Take {
                        let target = old(self)@.head_target();
                        Some(focus_words(target.has_agent, target.tab_id, target.pane_id))
                    } else {
                        None
                    })
                },
            },
    {
        if self.view_focus.is_some() || self.pending_attach.len() == 0 {
            return AttachPoll { answer: None, starting: false, gesture: None };
        }
        let ghost start = self@;
        let ghost list = self.pending_attach@;
        assert(start.attach[0] == list[0]@);
        if !self.pending_attach[0].started {
            let pending = &self.pending_attach[0];
            let name = match self.cache(&pending.key.side) {
                Some(cache) => cache.session_name(),
                None => None,
            };
            let target = match self.find(&pending.key.side, &pending.key.terminal_id) {
                Some(pane) => pane.target(&pending.key.side),
                None => pending.target.clone(),
            };
            let focus = if pending.request.focus.takes() {
                Some(focus_target_args(&target))
            } else {
                None
            };
            self.pending_attach[0].started = true;
            assert(attaches(self.pending_attach@) =~= start.attach.update(
                0,
                PendingAttachView { started: true, ..start.attach[0] },
            ));
            return AttachPoll { answer: None, starting: false, gesture: Some(Gesture { target, focus, name }) };
        }
        let launch = match landed {
            Landed::Waiting => {
                return AttachPoll { answer: None, starting: false, gesture: None };
            },
            Landed::Value(launch) => launch,
            Landed::Panicked => Err("the herdr attach did not finish".to_owned()),
        };
        let pending = self.pending_attach.remove(0);
        assert(attaches(self.pending_attach@) =~= start.attach.drop_first());
        match &launch {
            Ok(_) => {},
            Err(message) => self.note_gesture(&pending.key.side, Some(message.as_str()), now),
        }
        let starting = self.pending_attach.len() > 0 && !self.pending_attach[0].started;
        AttachPoll {
            answer: Some(AttachAnswer { key: pending.key, request: pending.request, launch }),
            starting,
            gesture: None,
        }
    }

    /// Queues a create, whose call the caller runs at once.  `focus` says
    /// whether the call takes herdr's focus.
    pub fn queue_create(&mut self, side: Side, request: CreateRequest, now: u64) -> (focus: bool)
        ensures
            final(self)@ == (HostState {
                caches: reconnecting(old(self)@.caches, side@, now),
                create: old(self)@.create.push(PendingCreateView { side: side@, request: request@ }),
                ..old(self)@
            }),
            focus == (request.focus == AttachFocus::Take),
    {
        self.reconnect_now(&side, now);
        let ghost before = self.pending_create@;
        let focus = request.focus.takes();
        let pending = PendingCreate { side, request };
        self.pending_create.push(pending);
        assert(creates(self.pending_create@) =~= creates(before).push(pending@));
        focus
    }

    /// Answers the create at the head of the line, where its call has come
    /// back.
    pub fn poll_create(&mut self, landed: Landed<Result<CreatedPane, String>>, now: u64) -> (r: Option<CreateAnswer>)
        ensures
            old(self)@.create.len() == 0 || landed is Waiting ==> r is None && final(self)@ == old(self)@,
            old(self)@.create.len() > 0 && !(landed is Waiting) ==> {
                &&& r is Some
                &&& (r->0).side@ == old(self)@.create[0].side
                &&& (r->0).request@ == old(self)@.create[0].request
                &&& landed is Value ==> (r->0).pane == landed->Value_0
                &&& landed is Panicked ==> refusal((r->0).pane) == Some("the herdr pane create did not finish"@)
                &&& final(self)@ == (HostState {
                    create: old(self)@.create.drop_first(),
                    caches: gesture_noted(old(self)@.caches, old(self)@.create[0].side, refusal((r->0).pane), now),
                    ..old(self)@
                })
            },
    {
        if self.pending_create.len() == 0 {
            return None;
        }
        let ghost start = self@;
        assert(start.create[0] == self.pending_create@[0]@);
        let pane = match landed {
            Landed::Waiting => {
                return None;
            },
            Landed::Value(pane) => pane,
            Landed::Panicked => Err("the herdr pane create did not finish".to_owned()),
        };
        let pending = self.pending_create.remove(0);
        assert(creates(self.pending_create@) =~= start.create.drop_first());
        match &pane {
            Ok(_) => {},
            Err(message) => self.note_gesture(&pending.side, Some(message.as_str()), now),
        }
        Some(CreateAnswer { side: pending.side, request: pending.request, pane })
    }

    fn land_focus(&mut self, open: bool, landed: Landed<Result<(), String>>, now: u64)
        requires
            old(self)@.view_focus is Some,
        ensures
            final(self)@ == old(self)@.focus_landed(open, landed, now),
    {
        let mut taken: Option<HerdrViewFocus> = None;
        std::mem::swap(&mut taken, &mut self.view_focus);
        if let Some(pending) = taken {
            if !open {
                return;
            }
            match landed {
                Landed::Waiting => {
                    self.view_focus = Some(pending);
                },
                Landed::Panicked => {
                    self.focused_view.settled(pending.session, false, now);
                },
                Landed::Value(Ok(_)) => {
                    self.focused_view.moved_focus(&herdr_key_of(&pending.key), now);
                    self.focused_view.settled(pending.session, true, now);
                },
                Landed::Value(Err(message)) => {
                    self.note_gesture(&pending.key.side, Some(message.as_str()), now);
                    self.focused_view.settled(pending.session, false, now);
                },
            }
        }
    }

    /// Local session switches focus herdr; a settled view follows later
    /// focus changes made inside herdr.  Listings started before our focus
    /// landed cannot reverse the user's session selection.
    pub fn sync_view(&mut self, state: ViewSync<'_>) -> (r: ViewStep)
        ensures
            ({
                let (after, follow, focus) = old(self)@.synced(
                    match state.active {
                        Some((id, Some(key), has_agent)) => Some((id, Some(key@), has_agent)),
                        Some((id, None, has_agent)) => Some((id, None, has_agent)),
                        None => None,
                    },
                    state.attentive,
                    state.open@,
                    state.focus,
                    state.now,
                );
                &&& final(self)@ == after
                &&& (match r.follow {
                    Some(key) => Some(key@),
                    None => None,
                }) == follow
                &&& (match r.focus {
                    Some((side, words)) => Some((side@, texts(words@))),
                    None => None,
                }) == focus
                &&& r.repaint == (old(self)@.view_focus is Some && after.view_focus is None)
            }),
    {
        let ghost start = self@;
        let busy = self.view_focus.is_some() || self.pending_attach.len() > 0;
        let key = match state.active {
            Some((_, Some(key), _)) => Some(herdr_key_of(key)),
            _ => None,
        };
        let active = match state.active {
            Some((id, _, has_agent)) => Some((id, key.as_ref(), has_agent)),
            None => None,
        };
        let inputs = ViewInputs {
            active,
            attach: self.config.attach,
            follow: self.config.follow_focus,
            caches: &self.endpoints.caches,
            attentive: state.attentive,
            busy,
            platform: self.platform,
        };
        let action = self.focused_view.next(inputs);
        if let Some(pending) = &self.view_focus {
            let open = has_session(state.open, pending.session);
            self.land_focus(open, state.focus, state.now);
            return ViewStep { follow: None, repaint: self.view_focus.is_none(), focus: None };
        }
        match action {
            None => ViewStep { follow: None, repaint: false, focus: None },
            Some(HerdrViewAction::Follow(key)) => ViewStep {
                follow: Some(
                    PaneKey {
                        multiplexer: MultiplexerKind::Herdr,
                        side: key.side,
                        terminal_id: key.terminal_id,
                    },
                ),
                repaint: false,
                focus: None,
            },
            Some(HerdrViewAction::Focus(id)) => match state.active {
                Some((_, Some(key), _)) => match self.focus_target(key) {
                    None => ViewStep { follow: None, repaint: false, focus: None },
                    Some(target) => {
                        let words = focus_target_args(&target);
                        self.view_focus = Some(HerdrViewFocus { session: id, key: key.clone() });
                        ViewStep { follow: None, repaint: false, focus: Some((key.side.clone(), words)) }
                    },
                },
                _ => ViewStep { follow: None, repaint: false, focus: None },
            },
        }
    }

    /// A session attached to the shared view on that pane.
    pub fn view_attached(&mut self, id: SessionId, key: &PaneKey, now: u64)
        ensures
            final(self)@ == (HostState {
                view: old(self)@.view.attached(id, Some(as_herdr_key(key@)), now),
                ..old(self)@
            }),
    {
        self.focused_view.attached(id, Some(&herdr_key_of(key)), now);
    }

    /// A follow to that pane was refused, so its focus is taken as known.
    pub fn view_refused(&mut self, key: &PaneKey, now: u64)
        ensures
            final(self)@ == (HostState { view: old(self)@.view.moved(as_herdr_key(key@), now), ..old(self)@ }),
    {
        self.focused_view.moved_focus(&herdr_key_of(key), now);
    }

    /// A session has closed.  The clients waiting on an attach queued for its
    /// pane come back, to be told so rather than left to time out.
    pub fn session_closed(&mut self, id: SessionId, key: Option<&PaneKey>) -> (r: Vec<u64>)
        ensures
            final(self)@ == old(self)@.session_closed(
                id,
                match key {
                    Some(key) => Some(key@),
                    None => None,
                },
            ),
            r@ == (match key {
                Some(key) => waiting_on(old(self)@.attach, key@),
                None => Seq::empty(),
            }),
    {
        let mut waiters: Vec<u64> = Vec::new();
        if let Some(key) = key {
            waiters = self.drop_attaches(key);
        }
        let ghost middle = self@;
        let own = match &self.view_focus {
            Some(pending) => pending.session == id,
            None => false,
        };
        if own {
            self.view_focus = None;
        }
        self.focused_view.closed(id);
        waiters
    }

    fn drop_attaches(&mut self, key: &PaneKey) -> (r: Vec<u64>)
        ensures
            final(self)@ == (HostState {
                attach: old(self)@.attach.filter(|p: PendingAttachView| p.key != key@),
                ..old(self)@
            }),
            r@ == waiting_on(old(self)@.attach, key@),
    {
        let ghost start = self@;
        let ghost all = self.pending_attach@;
        let ghost views = attaches(all);
        let ghost keep = |p: PendingAttachView| p.key != key@;
        let mut list: Vec<PendingAttach> = Vec::new();
        std::mem::swap(&mut list, &mut self.pending_attach);
        let mut out: Vec<PendingAttach> = Vec::new();
        let mut waiters: Vec<u64> = Vec::new();
        let ghost mut done: int = 0;
        proof {
            reveal(Seq::filter);
            assert(views.take(0) =~= Seq::<PendingAttachView>::empty());
            assert(all.skip(0) =~= all);
            assert(attaches(out@) =~= Seq::<PendingAttachView>::empty());
        }
        while list.len() > 0
            invariant
                0 <= done <= all.len(),
                list@ == all.skip(done),
                views == attaches(all),
                keep == (|p: PendingAttachView| p.key != key@),
                attaches(out@) == views.take(done).filter(keep),
                waiters@ == waiting_on(views.take(done), key@),
                self@ == (HostState { attach: self@.attach, ..start }),
            decreases list@.len(),
        {
            let pending = list.remove(0);
            let ghost before = out@;
            proof {
                reveal(Seq::filter);
                assert(pending == all[done]);
                assert(views.take(done + 1).drop_last() =~= views.take(done));
                assert(views.take(done + 1).last() == pending@);
                assert(all.skip(done).remove(0) =~= all.skip(done + 1));
                done = done + 1;
            }
            if pending.key.same_key(key) {
                let mut joining = pending.request.waiters;
                waiters.append(&mut joining);
            } else {
                out.push(pending);
                assert(attaches(out@) =~= attaches(before).push(pending@));
            }
        }
        assert(views.take(views.len() as int) =~= views);
        self.pending_attach = out;
        waiters
    }
}

proof fn count_grows(caches: Seq<EndpointState>, upto: int)
    requires
        0 <= upto <= caches.len(),
    ensures
        count(caches.take(upto)) <= count(caches),
    decreases caches.len(),
{
    if upto == caches.len() {
        assert(caches.take(upto) =~= caches);
    } else {
        assert(caches.drop_last().take(upto) =~= caches.take(upto));
        count_grows(caches.drop_last(), upto);
    }
}

fn has_session(open: &Vec<SessionId>, id: SessionId) -> (r: bool)
    ensures
        r == open@.contains(id),
{
    let mut i: usize = 0;
    while i < open.len()
        invariant
            i <= open@.len(),
            forall|k: int| 0 <= k < i ==> open@[k] != id,
        decreases open@.len() - i,
    {
        if open[i] == id {
            return true;
        }
        i += 1;
    }
    false
}

/// A text, or null where there is none.
pub open spec fn text_tree(t: Option<Seq<char>>) -> Tree {
    match t {
        Some(t) => Tree::Text(t),
        None => Tree::Null,
    }
}

/// What a client is told about a herdr pane.
pub open spec fn pane_members(
    session: Option<Seq<char>>,
    side: SideView,
    terminal_id: Seq<char>,
    pane: Option<PaneView>,
) -> Seq<(Seq<char>, Tree)> {
    seq![
        ("name"@, Tree::Text(kind_name(MultiplexerKind::Herdr))),
        ("side"@, Tree::Text(side_name(side))),
        ("session"@, text_tree(session)),
        ("terminal_id"@, Tree::Text(terminal_id)),
        (
            "pane_id"@,
            match pane {
                Some(pane) => Tree::Text(pane.pane_id),
                None => Tree::Null,
            },
        ),
        (
            "tab_id"@,
            match pane {
                Some(pane) => text_tree(pane.tab_id),
                None => Tree::Null,
            },
        ),
    ]
}

/// The launch of a program on a side.
pub open spec fn side_launch(side: SideView, program: Seq<char>, args: Seq<Seq<char>>) -> LaunchView {
    match side {
        SideView::Native => LaunchView { program, argv: args },
        SideView::Wsl(distro) => LaunchView {
            program: "wsl.exe"@,
            argv: login_shell_argv(distro, shell_line(program, args)),
        },
    }
}

/// The command that opens a session already showing `target`, when herdr can
/// hand one pane over on this side under `mode`.  `None` means the pane is
/// reachable only by sharing herdr's whole view.
pub fn open_multiplexer_session(
    target: &PaneTarget,
    mode: AttachMode,
    platform: Platform,
    program: &str,
) -> (r: Option<Launch>)
    ensures
        r is Some <==> opens_directly(target.side@, mode, target.has_agent, platform),
        r matches Some(launch) ==> launch@ == side_launch(
            target.side@,
            program@,
            seq!["agent"@, "attach"@, target.pane_id@],
        ),
{
    if !attaches_directly(&target.side, mode, target.has_agent, platform) {
        return None;
    }
    let args: [&str; 3] = ["agent", "attach", target.pane_id.as_str()];
    assert(slices(args@) =~= seq!["agent"@, "attach"@, target.pane_id@]);
    let (program, argv) = target.side.command(program, &args);
    Some(Launch { program, argv })
}

/// No pane has two attaches in line.
pub open spec fn one_each(list: Seq<PendingAttachView>) -> bool {
    forall|i: int, j: int| 0 <= i < j < list.len() ==> (#[trigger] list[i]).key != (#[trigger] list[j]).key
}

/// A pane has one place in line: a second request for it joins the first.
pub proof fn a_pane_waits_in_line_once(
    list: Seq<PendingAttachView>,
    key: PaneKeyView,
    target: PaneTargetView,
    request: AttachRequestView,
)
    requires
        one_each(list),
    ensures
        one_each(attach_queued(list, key, target, request)),
{
    attach_at_is_first(list, key);
}

proof fn nobody_waits_elsewhere(list: Seq<PendingAttachView>, key: PaneKeyView)
    requires
        forall|k: int| 0 <= k < list.len() ==> (#[trigger] list[k]).key != key,
    ensures
        waiting_on(list, key) == Seq::<u64>::empty(),
    decreases list.len(),
{
    if list.len() > 0 {
        assert forall|k: int| 0 <= k < list.len() - 1 implies (#[trigger] list.drop_last()[k]).key != key by {
            assert(list[k].key != key);
        }
        nobody_waits_elsewhere(list.drop_last(), key);
    }
}

proof fn one_place_waits(list: Seq<PendingAttachView>, at: int)
    requires
        one_each(list),
        0 <= at < list.len(),
    ensures
        waiting_on(list, list[at].key) == list[at].request.waiters,
    decreases list.len(),
{
    let key = list[at].key;
    let front = list.drop_last();
    if at == list.len() - 1 {
        assert forall|k: int| 0 <= k < front.len() implies (#[trigger] front[k]).key != key by {
            assert(list[k].key != list[at].key);
        }
        nobody_waits_elsewhere(front, key);
        assert(Seq::<u64>::empty() + list[at].request.waiters =~= list[at].request.waiters);
    } else {
        assert(front[at] == list[at]);
        assert(one_each(front)) by {
            assert forall|i: int, j: int| 0 <= i < j < front.len() implies (#[trigger] front[i]).key != (
            #[trigger] front[j]).key by {
                assert(list[i].key != list[j].key);
            }
        }
        one_place_waits(front, at);
        assert(list[at].key != list[list.len() - 1].key);
    }
}

/// Every client that asks for an attach waits on it, behind those that asked
/// before.
pub proof fn a_client_waits_on_the_attach_it_asked_for(
    list: Seq<PendingAttachView>,
    key: PaneKeyView,
    target: PaneTargetView,
    request: AttachRequestView,
)
    requires
        one_each(list),
    ensures
        waiting_on(attach_queued(list, key, target, request), key) == waiting_on(list, key) + request.waiters,
{
    attach_at_is_first(list, key);
    a_pane_waits_in_line_once(list, key, target, request);
    let after = attach_queued(list, key, target, request);
    match attach_at(list, key) {
        Some(at) => {
            one_place_waits(list, at);
            one_place_waits(after, at);
        },
        None => {
            nobody_waits_elsewhere(list, key);
            one_place_waits(after, list.len() as int);
            assert(Seq::<u64>::empty() + request.waiters =~= request.waiters);
        },
    }
}

/// A session that closes takes its own queued attach with it, and no client
/// waiting on another pane loses its place.
pub proof fn a_closed_session_leaves_the_others_waiting(
    state: HostState,
    id: SessionId,
    key: PaneKeyView,
    other: PaneKeyView,
)
    ensures
        waiting_on(state.session_closed(id, Some(key)).attach, other) == (if other == key {
            Seq::empty()
        } else {
            waiting_on(state.attach, other)
        }),
{
    filtered_waiting(state.attach, key, other);
}

proof fn filtered_waiting(list: Seq<PendingAttachView>, key: PaneKeyView, other: PaneKeyView)
    ensures
        waiting_on(list.filter(|p: PendingAttachView| p.key != key), other) == (if other == key {
            Seq::empty()
        } else {
            waiting_on(list, other)
        }),
    decreases list.len(),
{
    reveal(Seq::filter);
    if list.len() > 0 {
        let keep = |p: PendingAttachView| p.key != key;
        let front = list.drop_last();
        filtered_waiting(front, key, other);
        if keep(list.last()) {
            assert(front.filter(keep).push(list.last()).drop_last() =~= front.filter(keep));
        }
    }
}

/// Only one call moves herdr's focus at a time: while a view's own focus call
/// is on its way, no attach gesture starts.
pub proof fn an_attach_waits_for_the_view(state: HostState, landed: Landed<Result<Launch, String>>, now: u64)
    requires
        state.view_focus is Some,
    ensures
        state.attach_polled(landed, now) == state,
{
}

/// While an attach is in line, the view asks nothing of herdr.
pub proof fn the_view_waits_for_an_attach(
    state: HostState,
    active: Option<(SessionId, Option<PaneKeyView>, bool)>,
    attentive: bool,
    open: Seq<SessionId>,
    landed: Landed<Result<(), String>>,
    now: u64,
)
    requires
        state.attach.len() > 0,
    ensures
        state.synced(active, attentive, open, landed, now).1 is None,
        state.synced(active, attentive, open, landed, now).2 is None,
{
}

/// The index of a pane is its place among the rows.
pub proof fn an_index_points_at_its_pane(caches: Seq<EndpointState>, side: SideView, terminal_id: Seq<char>)
    requires
        found(caches, side, terminal_id) is Some,
    ensures
        ({
            let at = side_at(caches, side)->0;
            let i = count(caches.take(at)) + listed_at(caches[at].agents, terminal_id)->0;
            &&& 0 <= i < flat(sides_of(caches)).len()
            &&& flat(sides_of(caches))[i] == (side, found(caches, side, terminal_id)->0)
        }),
{
    side_at_is_first(caches, side);
    let at = side_at(caches, side)->0;
    listed_at_is_first(caches[at].agents, terminal_id);
    rows_stand_in_order(caches, at, listed_at(caches[at].agents, terminal_id)->0);
}

proof fn rows_stand_in_order(caches: Seq<EndpointState>, at: int, i: int)
    requires
        0 <= at < caches.len(),
        0 <= i < caches[at].agents.len(),
    ensures
        count(caches.take(at)) + i < flat(sides_of(caches)).len(),
        flat(sides_of(caches))[count(caches.take(at)) + i] == (caches[at].side, caches[at].agents[i]),
    decreases caches.len(),
{
    let front = caches.drop_last();
    assert(sides_of(caches).drop_last() =~= sides_of(front));
    every_pane_has_a_place(front);
    if at == caches.len() - 1 {
        assert(caches.take(at) =~= front);
    } else {
        assert(front.take(at) =~= caches.take(at));
        rows_stand_in_order(front, at, i);
    }
}

} // verus!

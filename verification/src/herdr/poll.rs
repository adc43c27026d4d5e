//! What each reachable herdr server has.  An event stream says when a side
//! changed, a listing says what it now holds, and a side whose stream drops
//! is reconnected on a backoff until its herdr comes back.
//!
//! Time is a count of nanoseconds the caller hands in.  Streams, listings and
//! reads are the caller's to run: a poll is told what came of them and answers
//! with what to start next.

use vstd::prelude::*;

use crate::herdr::events::{Event, Message};
use crate::herdr::model::{Listing, PollError, Reach, Settings};
#[allow(unused_imports)]
use crate::herdr::model::{error_code_of, Indicators, PollErrorView, ReachView};
use crate::herdr::wire::inventory_in;
#[allow(unused_imports)]
use crate::herdr::wire::{inventory_ids, listed_panes, INVALID_INVENTORY};
use crate::json::Json;
#[allow(unused_imports)]
use crate::json::{document, opt_tree};
use crate::multiplexer::model::Pane;
#[allow(unused_imports)]
use crate::multiplexer::model::{panes, PaneStatus, PaneView};
use crate::side::Side;
#[allow(unused_imports)]
use crate::side::SideView;
use crate::text::{is_listed, same, same_opt, same_texts, sort_set};
#[allow(unused_imports)]
use crate::text::{sorted_set, texts};

verus! {

/// How long a side with no stream waits before each reconnect in a run of
/// failures, in nanoseconds.  The last step repeats, so a herdr started later
/// is found within that long.
pub open spec fn backoff(failures: nat) -> u64 {
    if failures == 0 {
        0
    } else if failures == 1 {
        500_000_000
    } else if failures == 2 {
        1_000_000_000
    } else if failures == 3 {
        2_000_000_000
    } else {
        5_000_000_000
    }
}

/// How long rows outlive the side that reported them, in nanoseconds.  Long
/// enough to ride out a herdr restart without the sidebar blanking, short
/// enough that a herdr that stayed down stops showing a status nobody
/// refreshes.
pub const LISTING_GRACE: u64 = 6_000_000_000;

/// How long a listing that failed while the stream stayed up waits before
/// running again, in nanoseconds.
pub const LISTING_RETRY: u64 = 2_000_000_000;

/// A moment from which every delay here can still be counted.
pub open spec fn countable(now: u64) -> bool {
    now <= u64::MAX - 6_000_000_000
}

/// What came of work that runs beside the poll.
#[derive(Debug, PartialEq, Eq)]
pub enum Landed<T> {
    /// It has not landed.
    Waiting,
    Value(T),
    /// Its worker panicked, which supplies no evidence of anything.
    Panicked,
}

/// A read that runs once: herdr rereads its own config only on request, and
/// re-running a shell inside every distro on the listing cadence would cost a
/// process per distro per tick to learn values that do not move.
#[derive(Debug, PartialEq, Eq)]
pub enum Read<T> {
    Unread,
    Pending,
    Done(T),
}

/// What one listing answered.
#[derive(Debug, PartialEq, Eq)]
pub struct ListingReply {
    pub sampled_at: u64,
    pub listing: Listing,
    pub agents: Vec<Pane>,
    /// Full membership, where it was asked for and could be read.
    pub inventory: Option<Result<Vec<String>, PollError>>,
}

/// A listing's answer with its panes in order and its terminals as a set.
pub struct ReplyView {
    pub sampled_at: u64,
    pub listing: Listing,
    pub agents: Seq<Pane>,
    pub inventory: Option<Result<Seq<Seq<char>>, PollErrorView>>,
}

impl View for ListingReply {
    type V = ReplyView;

    open spec fn view(&self) -> ReplyView {
        ReplyView {
            sampled_at: self.sampled_at,
            listing: self.listing,
            agents: self.agents@,
            inventory: match self.inventory {
                None => None,
                Some(Ok(ids)) => Some(Ok(texts(ids@))),
                Some(Err(error)) => Some(Err(error@)),
            },
        }
    }
}

/// The membership a reply is read for: only a full pane listing on a side with
/// attached sessions carries it.
pub open spec fn reply_inventory(
    reply: Option<crate::json::Tree>,
    listing: Listing,
    attached: bool,
) -> Option<Result<Seq<Seq<char>>, PollErrorView>> {
    if attached && listing == Listing::Panes {
        match inventory_ids(reply) {
            Some(ids) => Some(Ok(sorted_set(ids))),
            None => Some(Err(PollErrorView::Absent(INVALID_INVENTORY@))),
        }
    } else {
        None
    }
}

impl ListingReply {
    /// Read a reply whose document has been read.
    pub fn read(reply: &Option<Json>, listing: Listing, sampled_at: u64, attached: bool) -> (r: Self)
        ensures
            r.sampled_at == sampled_at,
            r.listing == listing,
            panes(r.agents@) == listed_panes(opt_tree(*reply), listing),
            r@.inventory == reply_inventory(opt_tree(*reply), listing, attached),
    {
        let agents = listing.panes_in(reply);
        let inventory = if attached && listing == Listing::Panes {
            match inventory_in(reply) {
                Ok(ids) => Some(Ok(sort_set(ids))),
                Err(error) => Some(Err(error)),
            }
        } else {
            None
        };
        ListingReply { sampled_at, listing, agents, inventory }
    }

    /// Read what a listing printed.
    pub fn parse(stdout: &str, listing: Listing, sampled_at: u64, attached: bool) -> (r: Self)
        ensures
            r.sampled_at == sampled_at,
            r.listing == listing,
            panes(r.agents@) == listed_panes(document(stdout@), listing),
            r@.inventory == reply_inventory(document(stdout@), listing, attached),
    {
        Self::read(&Json::parse(stdout), listing, sampled_at, attached)
    }
}

/// Full terminal membership from one successful pane-list request.  The
/// terminals are in order, each once.
#[derive(Debug, PartialEq, Eq)]
pub struct PaneInventory {
    pub sampled_at: u64,
    pub terminal_ids: Vec<String>,
}

/// Last known pane details, with live fields valid only in a current reply.
#[derive(Debug, PartialEq, Eq)]
pub struct PaneMetadata {
    pub agent: Pane,
    pub current: bool,
}

/// The subscription that says when a side changed.
#[derive(Debug, Clone, Copy, PartialEq, Eq, Structural)]
pub enum Link {
    /// No stream.  A reconnect is due at `retry_at`, the `failures`th in a
    /// row.
    Down { failures: usize, retry_at: u64 },
    /// Spawned, and waiting for herdr to accept the subscription.  Carries
    /// the run of failures this attempt would extend.
    Connecting { failures: usize },
    Up,
    /// No herdr has ever answered here and the last try found none.
    Abandoned,
}

/// What herdr answers where no server runs, which is nothing to warn about.
pub const NO_SERVER: &'static str = "server_not_running";

/// What a poll asks its caller to start or to say.
#[derive(Debug, PartialEq, Eq)]
pub enum Action {
    /// Open the lifecycle subscription on the side.
    OpenLink,
    /// Open the status subscription for these panes, dropping the one before.
    OpenStatus(Vec<String>),
    StartListing { listing: Listing, attached: bool },
    ReadSettings,
    ReadSessionName,
    /// Bring a frame once that many nanoseconds have passed, for a retry
    /// nothing else would bring one for.
    WakeAfter(u64),
    /// Warn, once, that the side failed with this code.
    Warn(String),
    /// Say that the side is given up on, after failing with this code.
    SayGivenUp(String),
    /// Say that the status stream was refused with this code.
    SayStatusRefused(String),
}

/// An action with the characters of its texts.
pub enum ActionView {
    OpenLink,
    OpenStatus(Seq<Seq<char>>),
    StartListing { listing: Listing, attached: bool },
    ReadSettings,
    ReadSessionName,
    WakeAfter(u64),
    Warn(Seq<char>),
    SayGivenUp(Seq<char>),
    SayStatusRefused(Seq<char>),
}

impl View for Action {
    type V = ActionView;

    open spec fn view(&self) -> ActionView {
        match self {
            Action::OpenLink => ActionView::OpenLink,
            Action::OpenStatus(ids) => ActionView::OpenStatus(texts(ids@)),
            Action::StartListing { listing, attached } => ActionView::StartListing {
                listing: *listing,
                attached: *attached,
            },
            Action::ReadSettings => ActionView::ReadSettings,
            Action::ReadSessionName => ActionView::ReadSessionName,
            Action::WakeAfter(delay) => ActionView::WakeAfter(*delay),
            Action::Warn(code) => ActionView::Warn(code@),
            Action::SayGivenUp(code) => ActionView::SayGivenUp(code@),
            Action::SayStatusRefused(code) => ActionView::SayStatusRefused(code@),
        }
    }
}

/// The views of a list of actions.
pub open spec fn actions(s: Seq<Action>) -> Seq<ActionView> {
    s.map_values(|a: Action| a@)
}

/// What a poll is told about the work that runs beside it.
pub struct Inputs {
    /// What the lifecycle stream said since the last poll.
    pub link: Vec<Message>,
    /// What the status stream said since the last poll.
    pub status: Vec<Message>,
    pub listing: Landed<Result<ListingReply, PollError>>,
    pub settings: Landed<Option<Settings>>,
    pub session_name: Landed<Option<String>>,
}

/// What came of a listing, with its answer viewed.
pub open spec fn landed_reply(l: Landed<Result<ListingReply, PollError>>) -> Landed<
    Result<ReplyView, PollErrorView>,
> {
    match l {
        Landed::Waiting => Landed::Waiting,
        Landed::Value(Ok(reply)) => Landed::Value(Ok(reply@)),
        Landed::Value(Err(error)) => Landed::Value(Err(error@)),
        Landed::Panicked => Landed::Panicked,
    }
}

/// A count one further on, starting over at its end.
pub open spec fn bumped(generation: u64) -> u64 {
    if generation == u64::MAX {
        0
    } else {
        (generation + 1) as u64
    }
}

/// Whether anything the sidebar draws of a pane differs.  A field that no row
/// shows, such as its tab, does not count.
pub open spec fn row_differs(a: PaneView, b: PaneView) -> bool {
    ||| a.terminal_id != b.terminal_id
    ||| a.status != b.status
    ||| a.kind != b.kind
    ||| a.title != b.title
    ||| a.focused != b.focused
    ||| a.cwd != b.cwd
    ||| a.foreground_cwd != b.foreground_cwd
    ||| a.pane_id != b.pane_id
}

/// Whether anything the sidebar draws of two lists differs.
pub open spec fn rows_differ(was: Seq<Pane>, now: Seq<Pane>) -> bool {
    was.len() != now.len() || exists|i: int| 0 <= i < was.len() && row_differs((#[trigger] was[i])@, now[i]@)
}

fn row_changed(a: &Pane, b: &Pane) -> (r: bool)
    ensures
        r == row_differs(a@, b@),
{
    !same(&a.terminal_id, &b.terminal_id) || a.status != b.status || !same_opt(&a.kind, &b.kind) || !same_opt(
        &a.title,
        &b.title,
    ) || a.focused != b.focused || !same_opt(&a.cwd, &b.cwd) || !same_opt(
        &a.foreground_cwd,
        &b.foreground_cwd,
    ) || !same(&a.pane_id, &b.pane_id)
}

/// Whether anything the sidebar draws changed.  Named field by field rather
/// than a whole-struct compare, so a field herdr reports that no row shows
/// cannot force the tree to rebuild.
pub fn rendered_differs(was: &Vec<Pane>, now: &Vec<Pane>) -> (r: bool)
    ensures
        r == rows_differ(was@, now@),
{
    if was.len() != now.len() {
        return true;
    }
    let mut i: usize = 0;
    while i < was.len()
        invariant
            was@.len() == now@.len(),
            i <= was@.len(),
            forall|k: int| 0 <= k < i ==> !row_differs((#[trigger] was@[k])@, now@[k]@),
        decreases was@.len() - i,
    {
        if row_changed(&was[i], &now[i]) {
            return true;
        }
        i += 1;
    }
    false
}

/// A list differs from itself in nothing a row shows.
pub proof fn an_unchanged_list_is_not_a_change(rows: Seq<Pane>)
    ensures
        !rows_differ(rows, rows),
{
}

/// A pane details nobody refreshes any more: its live fields are gone.
pub open spec fn stale(pane: PaneMetadata) -> PaneMetadata {
    PaneMetadata { agent: Pane { status: None, focused: false, ..pane.agent }, current: false }
}

/// Every pane of a list stale.
pub open spec fn all_stale(list: Seq<PaneMetadata>) -> Seq<PaneMetadata> {
    list.map_values(|pane: PaneMetadata| stale(pane))
}

/// The panes whose terminals are among `ids`.
pub open spec fn members_of(list: Seq<PaneMetadata>, ids: Seq<Seq<char>>) -> Seq<PaneMetadata> {
    list.filter(|pane: PaneMetadata| ids.contains(pane.agent.terminal_id@))
}

/// Where the first pane with that terminal stands.
pub open spec fn terminal_at(list: Seq<PaneMetadata>, terminal_id: Seq<char>) -> Option<int>
    decreases list.len(),
{
    if list.len() == 0 {
        None
    } else {
        match terminal_at(list.drop_last(), terminal_id) {
            Some(at) => Some(at),
            None => if list.last().agent.terminal_id@ == terminal_id {
                Some(list.len() - 1)
            } else {
                None
            },
        }
    }
}

/// The list with a pane's details brought up to date, or added.
pub open spec fn refreshed(list: Seq<PaneMetadata>, agent: Pane) -> Seq<PaneMetadata> {
    let fresh = PaneMetadata { agent, current: true };
    match terminal_at(list, agent.terminal_id@) {
        Some(at) => list.update(at, fresh),
        None => list.push(fresh),
    }
}

/// The list with the details of each agent brought up to date, in turn.
pub open spec fn all_refreshed(list: Seq<PaneMetadata>, agents: Seq<Pane>) -> Seq<PaneMetadata>
    decreases agents.len(),
{
    if agents.len() == 0 {
        list
    } else {
        refreshed(all_refreshed(list, agents.drop_last()), agents.last())
    }
}

/// The panes of a list that hold an agent.
pub open spec fn with_agents(list: Seq<Pane>) -> Seq<Pane> {
    list.filter(|pane: Pane| pane.status is Some)
}

/// Whether a status event changes the pane.
pub open spec fn status_changes(pane: Pane, pane_id: Seq<char>, status: PaneStatus) -> bool {
    pane.pane_id@ == pane_id && pane.status is Some && pane.status != Some(status)
}

/// The pane after a status event.
pub open spec fn with_status(pane: Pane, pane_id: Seq<char>, status: PaneStatus) -> Pane {
    if status_changes(pane, pane_id, status) {
        Pane { status: Some(status), ..pane }
    } else {
        pane
    }
}

/// The pane after a focus event: it is focused exactly if the event names it.
pub open spec fn with_focus(pane: Pane, pane_id: Seq<char>) -> Pane {
    Pane { focused: pane.pane_id@ == pane_id, ..pane }
}

/// The panes after a status event.
pub open spec fn all_with_status(list: Seq<Pane>, pane_id: Seq<char>, status: PaneStatus) -> Seq<Pane> {
    list.map_values(|pane: Pane| with_status(pane, pane_id, status))
}

/// The attached panes after a status event: only the current ones are live.
pub open spec fn held_with_status(list: Seq<PaneMetadata>, pane_id: Seq<char>, status: PaneStatus) -> Seq<
    PaneMetadata,
> {
    list.map_values(
        |pane: PaneMetadata|
            if pane.current {
                PaneMetadata { agent: with_status(pane.agent, pane_id, status), current: true }
            } else {
                pane
            },
    )
}

/// The panes after a focus event.
pub open spec fn all_with_focus(list: Seq<Pane>, pane_id: Seq<char>) -> Seq<Pane> {
    list.map_values(|pane: Pane| with_focus(pane, pane_id))
}

/// The attached panes after a focus event: only the current ones are live.
pub open spec fn held_with_focus(list: Seq<PaneMetadata>, pane_id: Seq<char>) -> Seq<PaneMetadata> {
    list.map_values(
        |pane: PaneMetadata|
            if pane.current {
                PaneMetadata { agent: with_focus(pane.agent, pane_id), current: true }
            } else {
                pane
            },
    )
}

/// Where the first pane of that id stands.
pub open spec fn pane_at(list: Seq<Pane>, pane_id: Seq<char>) -> Option<int>
    decreases list.len(),
{
    if list.len() == 0 {
        None
    } else {
        match pane_at(list.drop_last(), pane_id) {
            Some(at) => Some(at),
            None => if list.last().pane_id@ == pane_id {
                Some(list.len() - 1)
            } else {
                None
            },
        }
    }
}

/// Where the first current pane of that id stands.
pub open spec fn current_at(list: Seq<PaneMetadata>, pane_id: Seq<char>) -> Option<int>
    decreases list.len(),
{
    if list.len() == 0 {
        None
    } else {
        match current_at(list.drop_last(), pane_id) {
            Some(at) => Some(at),
            None => if list.last().current && list.last().agent.pane_id@ == pane_id {
                Some(list.len() - 1)
            } else {
                None
            },
        }
    }
}

/// The ids of the panes that hold an agent.
pub open spec fn agent_ids(list: Seq<Pane>) -> Seq<Seq<char>>
    decreases list.len(),
{
    if list.len() == 0 {
        Seq::empty()
    } else {
        let front = agent_ids(list.drop_last());
        if list.last().status is Some {
            front.push(list.last().pane_id@)
        } else {
            front
        }
    }
}

/// The ids of the current attached panes that hold an agent.
pub open spec fn held_ids(list: Seq<PaneMetadata>) -> Seq<Seq<char>>
    decreases list.len(),
{
    if list.len() == 0 {
        Seq::empty()
    } else {
        let front = held_ids(list.drop_last());
        if list.last().current && list.last().agent.status is Some {
            front.push(list.last().agent.pane_id@)
        } else {
            front
        }
    }
}

/// Everything one endpoint knows, and what it has asked to be started.
#[verifier::ext_equal]
pub struct EndpointState {
    pub side: SideView,
    pub agents: Seq<Pane>,
    pub attachment: Seq<PaneMetadata>,
    pub generation: u64,
    pub reach: ReachView,
    pub link: Link,
    pub status: Option<Seq<Seq<char>>>,
    pub status_refused: Option<Seq<Seq<char>>>,
    pub listing_due: Option<u64>,
    pub listed_for: Option<(Listing, bool)>,
    pub held: Seq<Event>,
    pub blank_at: Option<u64>,
    pub sampled_at: Option<u64>,
    pub inventory: Option<(u64, Seq<Seq<char>>)>,
    pub pending: bool,
    pub settings: Read<Settings>,
    pub session_name: Read<String>,
    pub actions: Seq<ActionView>,
}

impl EndpointState {
    /// A side nothing is known of, whose first connect is due at `now`.
    pub open spec fn fresh(side: SideView, now: u64) -> Self {
        EndpointState {
            side,
            agents: Seq::empty(),
            attachment: Seq::empty(),
            generation: 0,
            reach: ReachView::fresh(),
            link: Link::Down { failures: 0, retry_at: now },
            status: None,
            status_refused: None,
            listing_due: None,
            listed_for: None,
            held: Seq::empty(),
            blank_at: None,
            sampled_at: None,
            inventory: None,
            pending: false,
            settings: Read::Unread,
            session_name: Read::Unread,
            actions: Seq::empty(),
        }
    }

    /// Tried again at `now`, where it is down.
    pub open spec fn reconnected(self, now: u64) -> Self {
        EndpointState {
            link: match self.link {
                Link::Down { failures, retry_at: _ } => Link::Down { failures, retry_at: now },
                other => other,
            },
            ..self
        }
    }

    /// Begun anew at `now`, unless it was given up.
    pub open spec fn restarted(self, now: u64) -> Self {
        if self.link is Abandoned {
            self
        } else {
            EndpointState { status: None, link: Link::Down { failures: 0, retry_at: now }, ..self }
        }
    }

    /// With one more thing to start.
    pub open spec fn asking(self, action: ActionView) -> Self {
        EndpointState { actions: self.actions.push(action), ..self }
    }

    /// A try that failed, said once: a code that is new and is not the ordinary
    /// "no server here" is a warning, and so that an empty sidebar can be
    /// explained, giving the side up is said too.
    pub open spec fn failure_said(self, error: PollErrorView) -> Self {
        let code = error_code_of(error);
        let novel = self.reach.novel(error);
        let s = EndpointState { reach: self.reach.failed(error), ..self };
        let s = if novel && code != NO_SERVER@ {
            s.asking(ActionView::Warn(code))
        } else {
            s
        };
        if novel && s.reach.abandoned() {
            s.asking(ActionView::SayGivenUp(code))
        } else {
            s
        }
    }

    /// A side that sessions have just attached to takes the rows it shows as
    /// what is known of the attached panes.
    pub open spec fn seeded(self, attached: bool) -> Self {
        if attached && self.attachment.len() == 0 {
            EndpointState {
                attachment: self.agents.map_values(
                    |agent: Pane| PaneMetadata { agent, current: self.sampled_at is Some },
                ),
                ..self
            }
        } else {
            self
        }
    }

    /// After a config read: what it said, or herdr's defaults where it could
    /// not be read.
    pub open spec fn settings_landed(self, landed: Landed<Option<Settings>>) -> Self {
        let defaults = Settings { detach: None, indicators: Indicators::Dots };
        if self.settings != Read::<Settings>::Pending {
            self
        } else {
            match landed {
                Landed::Waiting => self,
                Landed::Value(read) => EndpointState {
                    settings: Read::Done(
                        match read {
                            Some(settings) => settings,
                            None => defaults,
                        },
                    ),
                    generation: bumped(self.generation),
                    ..self
                },
                Landed::Panicked => EndpointState { settings: Read::Done(defaults), ..self },
            }
        }
    }

    /// After a session-name read: the name, or unread again where there is
    /// none.
    pub open spec fn session_landed(self, landed: Landed<Option<String>>) -> Self {
        if self.session_name != Read::<String>::Pending {
            self
        } else {
            match landed {
                Landed::Waiting => self,
                Landed::Value(Some(name)) => EndpointState { session_name: Read::Done(name), ..self },
                Landed::Value(None) => EndpointState { session_name: Read::Unread, ..self },
                Landed::Panicked => EndpointState { session_name: Read::Unread, ..self },
            }
        }
    }

    /// herdr has answered.
    pub open spec fn answered(self) -> Self {
        EndpointState { reach: self.reach.answered(), blank_at: None, ..self }
    }

    /// The live half of what herdr last said is gone.
    pub open spec fn forgotten(self) -> Self {
        EndpointState { sampled_at: None, attachment: all_stale(self.attachment), ..self }
    }

    /// The rows are given up once a run of failures has outlasted its grace.
    pub open spec fn grace_expired(self, now: u64) -> Self {
        match self.blank_at {
            Some(at) if at <= now => {
                let s = self.forgotten();
                if s.agents.len() > 0 {
                    EndpointState { agents: Seq::empty(), generation: bumped(s.generation), ..s }
                } else {
                    s
                }
            },
            _ => self,
        }
    }

    /// A run of failures counts from its first.
    pub open spec fn grace_started(self, now: u64) -> Self {
        EndpointState {
            blank_at: match self.blank_at {
                Some(at) => Some(at),
                None => Some((now + LISTING_GRACE) as u64),
            },
            ..self
        }
    }

    /// After a patch that changed a row, or did not.
    pub open spec fn patched(self, changed: bool, now: u64) -> Self {
        if changed {
            EndpointState {
                generation: bumped(self.generation),
                sampled_at: match self.sampled_at {
                    Some(_) => Some(now),
                    None => None,
                },
                ..self
            }
        } else {
            self
        }
    }

    /// Whether a status event changes a live pane.
    pub open spec fn status_event_changes(self, pane_id: Seq<char>, status: PaneStatus) -> bool {
        ||| exists|i: int| 0 <= i < self.agents.len() && status_changes(#[trigger] self.agents[i], pane_id, status)
        ||| exists|i: int|
            0 <= i < self.attachment.len() && (#[trigger] self.attachment[i]).current && status_changes(
                self.attachment[i].agent,
                pane_id,
                status,
            )
    }

    /// Whether a focus event changes a live pane.
    pub open spec fn focus_event_changes(self, pane_id: Seq<char>) -> bool {
        ||| exists|i: int|
            0 <= i < self.agents.len() && (#[trigger] self.agents[i]).focused != (self.agents[i].pane_id@ == pane_id)
        ||| exists|i: int|
            0 <= i < self.attachment.len() && (#[trigger] self.attachment[i]).current
                && self.attachment[i].agent.focused != (self.attachment[i].agent.pane_id@ == pane_id)
    }

    /// A pane herdr re-described.  A pane this side does not show is left
    /// alone; an agent that left its pane changes which rows exist, which only
    /// a listing can say.
    pub open spec fn updated(self, pane: Pane, now: u64) -> Self {
        let hides = self.listed_for == Some((Listing::Agents, false)) && pane.status is None;
        let row = pane_at(self.agents, pane.pane_id@);
        let rows = match row {
            Some(at) => if hides {
                EndpointState { listing_due: Some(now), ..self }
            } else {
                EndpointState { agents: self.agents.update(at, pane), ..self }
            },
            None => self,
        };
        let changed = row is Some && !hides && row_differs(self.agents[row->0]@, pane@);
        let held = match current_at(self.attachment, pane.pane_id@) {
            Some(at) => EndpointState {
                attachment: self.attachment.update(at, PaneMetadata { agent: pane, current: true }),
                ..rows
            },
            None => rows,
        };
        held.patched(changed, now)
    }

    /// After one event.
    pub open spec fn applied(self, event: Event, now: u64) -> Self {
        match event {
            Event::Changed => EndpointState { listing_due: Some(now), ..self },
            Event::Status { pane_id, status } => (EndpointState {
                agents: all_with_status(self.agents, pane_id@, status),
                attachment: held_with_status(self.attachment, pane_id@, status),
                ..self
            }).patched(self.status_event_changes(pane_id@, status), now),
            Event::Focused { pane_id } => (EndpointState {
                agents: all_with_focus(self.agents, pane_id@),
                attachment: held_with_focus(self.attachment, pane_id@),
                ..self
            }).patched(self.focus_event_changes(pane_id@), now),
            Event::Updated(pane) => self.updated(pane, now),
        }
    }

    /// After several events in turn.
    pub open spec fn all_applied(self, events: Seq<Event>, now: u64) -> Self
        decreases events.len(),
    {
        if events.len() == 0 {
            self
        } else {
            self.all_applied(events.drop_last(), now).applied(events.last(), now)
        }
    }

    /// An event from either stream.  A patch lands at once, and is held as
    /// well when a listing is in flight, since that listing may have sampled
    /// herdr before the change and would otherwise undo it.
    pub open spec fn received(self, event: Event, now: u64) -> Self {
        let s = if self.pending && !(event is Changed) {
            EndpointState { held: self.held.push(event), ..self }
        } else {
            self
        };
        s.applied(event, now)
    }

    /// herdr accepted the lifecycle subscription.
    pub open spec fn link_started(self, now: u64) -> Self {
        let s = EndpointState {
            link: if self.link is Connecting {
                Link::Up
            } else {
                self.link
            },
            ..self
        };
        EndpointState { listing_due: Some(now), ..s.answered() }
    }

    /// The failures in a row that a stream ending makes: a stream herdr had
    /// accepted ended because herdr went away, and starts the count over.
    pub open spec fn failures_after(self) -> usize {
        match self.link {
            Link::Connecting { failures } => if failures == usize::MAX {
                failures
            } else {
                (failures + 1) as usize
            },
            _ => 0,
        }
    }

    /// What a lifecycle stream ending retires: only a stream that was up has a
    /// listing behind it.
    pub open spec fn retired(self, now: u64) -> Self {
        if self.link is Up {
            (EndpointState { status: None, inventory: None, session_name: Read::Unread, ..self }).grace_started(
                now,
            ).asking(ActionView::WakeAfter(LISTING_GRACE))
        } else {
            self
        }
    }

    /// A lifecycle stream ending.  The reconnect starts at once after a stream
    /// herdr had accepted; one that never started backs off, or gives the side
    /// up when nothing herdr-shaped answered there.
    pub open spec fn link_ended(self, reason: Option<PollErrorView>, now: u64) -> Self {
        let failures = self.failures_after();
        let s = self.retired(now);
        let s = match reason {
            Some(error) => s.failure_said(error),
            None => s,
        };
        if reason is Some && s.reach.abandoned() {
            EndpointState { link: Link::Abandoned, ..s }
        } else {
            let delay = backoff(failures as nat);
            (EndpointState { link: Link::Down { failures, retry_at: (now + delay) as u64 }, ..s }).asking(
                ActionView::WakeAfter(delay),
            )
        }
    }

    /// After the messages of a lifecycle stream, up to the one that ends it.
    pub open spec fn link_told(self, messages: Seq<Message>, now: u64) -> Self
        decreases messages.len(),
    {
        if messages.len() == 0 {
            self
        } else {
            let rest = messages.drop_first();
            match messages[0] {
                Message::Started => self.link_started(now).link_told(rest, now),
                Message::Event(event) => self.received(event, now).link_told(rest, now),
                Message::Ended(Some(error)) => self.link_ended(Some(error@), now),
                Message::Ended(None) => self.link_ended(None, now),
            }
        }
    }

    /// The lifecycle stream read, or one opened when a reconnect is due.
    pub open spec fn link_advanced(self, messages: Seq<Message>, now: u64) -> Self {
        match self.link {
            Link::Down { failures, retry_at } => if retry_at <= now {
                (EndpointState { link: Link::Connecting { failures }, ..self }).asking(ActionView::OpenLink)
            } else {
                self
            },
            Link::Abandoned => self,
            _ => self.link_told(messages, now),
        }
    }

    /// A status stream ending: a refusal is remembered against the panes it
    /// named.
    pub open spec fn status_ended(self, reason: Option<PollErrorView>) -> Self {
        EndpointState {
            status: None,
            status_refused: if reason is Some {
                self.status
            } else {
                self.status_refused
            },
            actions: match reason {
                Some(error) => self.actions.push(
                    ActionView::SayStatusRefused(error_code_of(error)),
                ),
                None => self.actions,
            },
            ..self
        }
    }

    /// After the messages of a status stream, up to the one that ends it.
    pub open spec fn status_told(self, messages: Seq<Message>, now: u64) -> Self
        decreases messages.len(),
    {
        if messages.len() == 0 {
            self
        } else {
            let rest = messages.drop_first();
            match messages[0] {
                Message::Started => (EndpointState { listing_due: Some(now), ..self }).status_told(rest, now),
                Message::Event(event) => self.received(event, now).status_told(rest, now),
                Message::Ended(reason) => self.status_ended(
                    match reason {
                        Some(error) => Some(error@),
                        None => None,
                    },
                ),
            }
        }
    }

    /// The status stream read, where one is open.
    pub open spec fn status_advanced(self, messages: Seq<Message>, now: u64) -> Self {
        if self.status is Some {
            self.status_told(messages, now)
        } else {
            self
        }
    }

    /// What a listing's membership says about the attached panes.
    pub open spec fn membership_adopted(self, reply: ReplyView, attached: bool) -> Self {
        if attached && reply.inventory is Some {
            match reply.inventory->0 {
                Ok(ids) => EndpointState {
                    attachment: all_refreshed(all_stale(members_of(self.attachment, ids)), reply.agents),
                    inventory: Some((reply.sampled_at, ids)),
                    ..self.answered()
                },
                Err(error) => {
                    (EndpointState { inventory: None, ..self }).forgotten().failure_said(error)
                },
            }
        } else {
            EndpointState {
                inventory: None,
                attachment: if attached {
                    all_stale(self.attachment)
                } else {
                    Seq::empty()
                },
                ..self.answered()
            }
        }
    }

    /// After a listing that answered.
    pub open spec fn adopted(self, reply: ReplyView, display: Listing, attached: bool) -> Self {
        let s = (EndpointState { sampled_at: Some(reply.sampled_at), ..self }).membership_adopted(reply, attached);
        let agents = if display == Listing::Agents && reply.listing == Listing::Panes {
            with_agents(reply.agents)
        } else {
            reply.agents
        };
        EndpointState {
            generation: if rows_differ(s.agents, agents) {
                bumped(s.generation)
            } else {
                s.generation
            },
            agents,
            ..s
        }
    }

    /// The patches that landed while the listing was in flight go on top of
    /// it, being newer.
    pub open spec fn replayed(self, now: u64) -> Self {
        (EndpointState { held: Seq::empty(), ..self }).all_applied(self.held, now)
    }

    /// The reads that a herdr that has answered here makes worth starting.
    pub open spec fn reads_started(self) -> Self {
        let s = if self.settings == Read::<Settings>::Unread {
            (EndpointState { settings: Read::Pending, ..self }).asking(ActionView::ReadSettings)
        } else {
            self
        };
        if s.session_name == Read::<String>::Unread {
            (EndpointState { session_name: Read::Pending, ..s }).asking(ActionView::ReadSessionName)
        } else {
            s
        }
    }

    /// After a listing that never answered.  One that could not run is no
    /// evidence about the agents, so what herdr last said stands until the
    /// failures outlast their grace; membership is the exception.
    pub open spec fn listing_failed(self, error: PollErrorView, now: u64) -> Self {
        let s = (EndpointState { held: Seq::empty(), inventory: None, ..self }).grace_started(now).grace_expired(
            now,
        );
        let s = s.failure_said(error);
        if s.link is Up {
            (EndpointState { listing_due: Some((now + LISTING_RETRY) as u64), ..s }).asking(
                ActionView::WakeAfter(LISTING_RETRY),
            )
        } else {
            s
        }
    }

    /// The listing in flight, where it has landed.
    pub open spec fn listing_landed(
        self,
        landed: Landed<Result<ReplyView, PollErrorView>>,
        display: Listing,
        attached: bool,
        now: u64,
    ) -> Self {
        if !self.pending {
            self
        } else {
            match landed {
                Landed::Waiting => self,
                Landed::Value(Ok(reply)) => EndpointState {
                    pending: false,
                    ..self.adopted(reply, display, attached).replayed(now).reads_started()
                },
                Landed::Value(Err(error)) => EndpointState {
                    pending: false,
                    session_name: Read::Unread,
                    ..self.listing_failed(error, now)
                },
                Landed::Panicked => EndpointState {
                    pending: false,
                    ..self.listing_failed(PollErrorView::Absent("poll_panicked"@), now)
                },
            }
        }
    }

    /// A side no session is attached to keeps no membership and no details.
    pub open spec fn detached(self, attached: bool) -> Self {
        if attached {
            self
        } else {
            EndpointState { inventory: None, attachment: Seq::empty(), ..self }
        }
    }

    /// The panes whose status is worth a subscription: those that hold an
    /// agent, in order, each once.
    pub open spec fn watched(self) -> Seq<Seq<char>> {
        sorted_set(agent_ids(self.agents) + held_ids(self.attachment))
    }

    /// The status subscription kept naming exactly the agents last listed,
    /// without asking again for what herdr refused.
    pub open spec fn status_synced(self) -> Self {
        let ids = self.watched();
        if self.status == Some(ids) || self.status_refused == Some(ids) {
            self
        } else if ids.len() == 0 {
            EndpointState { status: None, ..self }
        } else {
            (EndpointState { status: Some(ids), ..self }).asking(ActionView::OpenStatus(ids))
        }
    }

    /// What is due at `now` started.
    pub open spec fn due_started(self, listing: Listing, attached: bool, now: u64) -> Self {
        if !(self.link is Up) {
            self.grace_expired(now)
        } else if self.pending {
            self
        } else {
            let s = if self.listed_for != Some((listing, attached)) {
                EndpointState { listing_due: Some(now), ..self }
            } else {
                self
            };
            if s.listing_due matches Some(due) && due <= now {
                (EndpointState {
                    listing_due: None,
                    listed_for: Some((listing, attached)),
                    pending: true,
                    ..s
                }).asking(
                    ActionView::StartListing {
                        listing: if attached {
                            Listing::Panes
                        } else {
                            listing
                        },
                        attached,
                    },
                )
            } else {
                s.status_synced()
            }
        }
    }

    /// After one poll.
    pub open spec fn polled(self, listing: Listing, attached: bool, inputs: Inputs, now: u64) -> Self {
        self.seeded(attached).settings_landed(inputs.settings).session_landed(
            inputs.session_name,
        ).link_advanced(inputs.link@, now).status_advanced(inputs.status@, now).listing_landed(
            landed_reply(inputs.listing),
            listing,
            attached,
            now,
        ).detached(attached).due_started(listing, attached, now)
    }
}

/// One herdr server's agents.
pub struct EndpointCache {
    pub side: Side,
    pub agents: Vec<Pane>,
    pub attachment_panes: Vec<PaneMetadata>,
    pub generation: u64,
    pub reach: Reach,
    pub link: Link,
    /// The pane ids the status subscription names.
    pub status: Option<Vec<String>>,
    /// The pane ids herdr last refused a status subscription for, so the same
    /// refusal is not asked for again until a listing names other panes.
    pub status_refused: Option<Vec<String>>,
    /// When the next listing has to start.  `None` while nothing has changed
    /// since the last one.
    pub listing_due: Option<u64>,
    /// What the last listing was asked for, since a change in what the sidebar
    /// wants is itself a reason to list again.
    pub listed_for: Option<(Listing, bool)>,
    /// Patches that landed while a listing was in flight.  They are newer than
    /// that listing, so they go on top of it once it lands.
    pub held: Vec<Event>,
    /// When a run of failed listings stops being worth waiting out.  Set on
    /// the first failure of the run and cleared by the next answer.
    pub blank_at: Option<u64>,
    pub sampled_at: Option<u64>,
    pub inventory: Option<PaneInventory>,
    /// Whether a listing is in flight.
    pub pending: bool,
    pub settings: Read<Settings>,
    pub session_name: Read<String>,
    /// What has been asked to be started and not handed out yet.
    pub actions: Vec<Action>,
}

/// The texts of an optional list.
pub open spec fn opt_texts(list: Option<Vec<String>>) -> Option<Seq<Seq<char>>> {
    match list {
        Some(l) => Some(texts(l@)),
        None => None,
    }
}

/// An inventory's moment and terminals.
pub open spec fn opt_inventory(inventory: Option<PaneInventory>) -> Option<(u64, Seq<Seq<char>>)> {
    match inventory {
        Some(i) => Some((i.sampled_at, texts(i.terminal_ids@))),
        None => None,
    }
}

impl View for EndpointCache {
    type V = EndpointState;

    open spec fn view(&self) -> EndpointState {
        EndpointState {
            side: self.side@,
            agents: self.agents@,
            attachment: self.attachment_panes@,
            generation: self.generation,
            reach: self.reach@,
            link: self.link,
            status: opt_texts(self.status),
            status_refused: opt_texts(self.status_refused),
            listing_due: self.listing_due,
            listed_for: self.listed_for,
            held: self.held@,
            blank_at: self.blank_at,
            sampled_at: self.sampled_at,
            inventory: opt_inventory(self.inventory),
            pending: self.pending,
            settings: self.settings,
            session_name: self.session_name,
            actions: actions(self.actions@),
        }
    }
}

pub(crate) fn mark_stale(list: &mut Vec<PaneMetadata>)
    ensures
        final(list)@ == all_stale(old(list)@),
{
    let ghost before = list@;
    let mut i: usize = 0;
    while i < list.len()
        invariant
            i <= list@.len(),
            list@.len() == before.len(),
            forall|k: int| 0 <= k < i ==> #[trigger] list@[k] == stale(before[k]),
            forall|k: int| i <= k < before.len() ==> #[trigger] list@[k] == before[k],
        decreases list@.len() - i,
    {
        list[i].current = false;
        list[i].agent.status = None;
        list[i].agent.focused = false;
        i += 1;
    }
    assert(list@ =~= all_stale(before));
}

pub(crate) fn keep_members(list: &mut Vec<PaneMetadata>, ids: &Vec<String>)
    ensures
        final(list)@ == members_of(old(list)@, texts(ids@)),
{
    let ghost all = list@;
    let ghost keep = |pane: PaneMetadata| texts(ids@).contains(pane.agent.terminal_id@);
    let mut out: Vec<PaneMetadata> = Vec::new();
    let ghost mut done: int = 0;
    proof {
        reveal(Seq::filter);
        assert(all.take(0) =~= Seq::<PaneMetadata>::empty());
        assert(all.skip(0) =~= all);
    }
    while list.len() > 0
        invariant
            0 <= done <= all.len(),
            list@ == all.skip(done),
            keep == (|pane: PaneMetadata| texts(ids@).contains(pane.agent.terminal_id@)),
            out@ == all.take(done).filter(keep),
        decreases list@.len(),
    {
        let pane = list.remove(0);
        proof {
            reveal(Seq::filter);
            assert(pane == all[done]);
            assert(all.take(done + 1).drop_last() =~= all.take(done));
            assert(all.take(done + 1).last() == pane);
            assert(all.skip(done).remove(0) =~= all.skip(done + 1));
            done = done + 1;
        }
        if is_listed(ids, &pane.agent.terminal_id) {
            out.push(pane);
        }
    }
    assert(all.take(all.len() as int) =~= all);
    *list = out;
}

fn refresh(list: &mut Vec<PaneMetadata>, agent: &Pane)
    ensures
        final(list)@ == refreshed(old(list)@, *agent),
{
    let ghost all = list@;
    let mut i: usize = 0;
    proof {
        assert(all.take(0) =~= Seq::<PaneMetadata>::empty());
    }
    while i < list.len()
        invariant
            i <= list@.len(),
            list@ == all,
            all == old(list)@,
            terminal_at(all.take(i as int), agent.terminal_id@) is None,
        decreases list@.len() - i,
    {
        assert(all.take(i + 1).drop_last() =~= all.take(i as int));
        assert(all.take(i + 1).last() == all[i as int]);
        if same(&list[i].agent.terminal_id, &agent.terminal_id) {
            proof {
                terminal_at_extends(all, agent.terminal_id@, i + 1);
            }
            list.set(i, PaneMetadata { agent: agent.clone(), current: true });
            return;
        }
        i += 1;
    }
    assert(all.take(all.len() as int) =~= all);
    list.push(PaneMetadata { agent: agent.clone(), current: true });
}

proof fn terminal_at_extends(list: Seq<PaneMetadata>, terminal_id: Seq<char>, upto: int)
    requires
        0 <= upto <= list.len(),
        terminal_at(list.take(upto), terminal_id) is Some,
    ensures
        terminal_at(list, terminal_id) == terminal_at(list.take(upto), terminal_id),
    decreases list.len(),
{
    if upto == list.len() {
        assert(list.take(upto) =~= list);
    } else {
        let front = list.drop_last();
        assert(front.take(upto) =~= list.take(upto));
        terminal_at_extends(front, terminal_id, upto);
    }
}

pub(crate) fn refresh_all(list: &mut Vec<PaneMetadata>, agents: &Vec<Pane>)
    ensures
        final(list)@ == all_refreshed(old(list)@, agents@),
{
    let ghost before = list@;
    let mut i: usize = 0;
    proof {
        assert(agents@.take(0) =~= Seq::<Pane>::empty());
    }
    while i < agents.len()
        invariant
            i <= agents@.len(),
            list@ == all_refreshed(before, agents@.take(i as int)),
        decreases agents@.len() - i,
    {
        assert(agents@.take(i + 1).drop_last() =~= agents@.take(i as int));
        assert(agents@.take(i + 1).last() == agents@[i as int]);
        refresh(list, &agents[i]);
        i += 1;
    }
    assert(agents@.take(agents@.len() as int) =~= agents@);
}

pub(crate) fn keep_agents(list: Vec<Pane>) -> (r: Vec<Pane>)
    ensures
        r@ == with_agents(list@),
{
    let ghost all = list@;
    let ghost keep = |pane: Pane| pane.status is Some;
    let mut list = list;
    let mut out: Vec<Pane> = Vec::new();
    let ghost mut done: int = 0;
    proof {
        reveal(Seq::filter);
        assert(all.take(0) =~= Seq::<Pane>::empty());
        assert(all.skip(0) =~= all);
    }
    while list.len() > 0
        invariant
            0 <= done <= all.len(),
            list@ == all.skip(done),
            keep == (|pane: Pane| pane.status is Some),
            out@ == all.take(done).filter(keep),
        decreases list@.len(),
    {
        let pane = list.remove(0);
        proof {
            reveal(Seq::filter);
            assert(pane == all[done]);
            assert(all.take(done + 1).drop_last() =~= all.take(done));
            assert(all.take(done + 1).last() == pane);
            assert(all.skip(done).remove(0) =~= all.skip(done + 1));
            done = done + 1;
        }
        if pane.status.is_some() {
            out.push(pane);
        }
    }
    assert(all.take(all.len() as int) =~= all);
    out
}

fn set_status(pane: &mut Pane, pane_id: &str, status: PaneStatus) -> (changed: bool)
    ensures
        *final(pane) == with_status(*old(pane), pane_id@, status),
        changed == status_changes(*old(pane), pane_id@, status),
{
    if same(&pane.pane_id, pane_id) && pane.status.is_some() && pane.status != Some(status) {
        pane.status = Some(status);
        return true;
    }
    false
}

fn set_focus(pane: &mut Pane, pane_id: &str) -> (changed: bool)
    ensures
        *final(pane) == with_focus(*old(pane), pane_id@),
        changed == (old(pane).focused != (old(pane).pane_id@ == pane_id@)),
{
    let focused = same(&pane.pane_id, pane_id);
    let changed = pane.focused != focused;
    pane.focused = focused;
    changed
}

fn first_pane(list: &Vec<Pane>, pane_id: &str) -> (r: Option<usize>)
    ensures
        match r {
            Some(at) => pane_at(list@, pane_id@) == Some(at as int) && at < list@.len(),
            None => pane_at(list@, pane_id@) is None,
        },
{
    let mut i: usize = 0;
    proof {
        assert(list@.take(0) =~= Seq::<Pane>::empty());
    }
    while i < list.len()
        invariant
            i <= list@.len(),
            pane_at(list@.take(i as int), pane_id@) is None,
        decreases list@.len() - i,
    {
        assert(list@.take(i + 1).drop_last() =~= list@.take(i as int));
        assert(list@.take(i + 1).last() == list@[i as int]);
        if same(&list[i].pane_id, pane_id) {
            proof {
                pane_at_extends(list@, pane_id@, i + 1);
            }
            return Some(i);
        }
        i += 1;
    }
    assert(list@.take(list@.len() as int) =~= list@);
    None
}

proof fn pane_at_extends(list: Seq<Pane>, pane_id: Seq<char>, upto: int)
    requires
        0 <= upto <= list.len(),
        pane_at(list.take(upto), pane_id) is Some,
    ensures
        pane_at(list, pane_id) == pane_at(list.take(upto), pane_id),
    decreases list.len(),
{
    if upto == list.len() {
        assert(list.take(upto) =~= list);
    } else {
        let front = list.drop_last();
        assert(front.take(upto) =~= list.take(upto));
        pane_at_extends(front, pane_id, upto);
    }
}

fn first_current(list: &Vec<PaneMetadata>, pane_id: &str) -> (r: Option<usize>)
    ensures
        match r {
            Some(at) => current_at(list@, pane_id@) == Some(at as int) && at < list@.len() && list@[at as int].current,
            None => current_at(list@, pane_id@) is None,
        },
{
    let mut i: usize = 0;
    proof {
        assert(list@.take(0) =~= Seq::<PaneMetadata>::empty());
    }
    while i < list.len()
        invariant
            i <= list@.len(),
            current_at(list@.take(i as int), pane_id@) is None,
        decreases list@.len() - i,
    {
        assert(list@.take(i + 1).drop_last() =~= list@.take(i as int));
        assert(list@.take(i + 1).last() == list@[i as int]);
        if list[i].current && same(&list[i].agent.pane_id, pane_id) {
            proof {
                current_at_extends(list@, pane_id@, i + 1);
            }
            return Some(i);
        }
        i += 1;
    }
    assert(list@.take(list@.len() as int) =~= list@);
    None
}

proof fn current_at_extends(list: Seq<PaneMetadata>, pane_id: Seq<char>, upto: int)
    requires
        0 <= upto <= list.len(),
        current_at(list.take(upto), pane_id) is Some,
    ensures
        current_at(list, pane_id) == current_at(list.take(upto), pane_id),
    decreases list.len(),
{
    if upto == list.len() {
        assert(list.take(upto) =~= list);
    } else {
        let front = list.drop_last();
        assert(front.take(upto) =~= list.take(upto));
        current_at_extends(front, pane_id, upto);
    }
}

fn backoff_delay(failures: usize) -> (r: u64)
    ensures
        r == backoff(failures as nat),
        r <= 5_000_000_000,
{
    if failures == 0 {
        0
    } else if failures == 1 {
        500_000_000
    } else if failures == 2 {
        1_000_000_000
    } else if failures == 3 {
        2_000_000_000
    } else {
        5_000_000_000
    }
}

impl EndpointCache {
    /// A side nothing is known of, whose first connect is due at once.
    pub fn new(side: Side, now: u64) -> (r: Self)
        ensures
            r@ == EndpointState::fresh(side@, now),
            r.side == side,
    {
        let r = EndpointCache {
            side,
            agents: Vec::new(),
            attachment_panes: Vec::new(),
            generation: 0,
            reach: Reach::default(),
            link: Link::Down { failures: 0, retry_at: now },
            status: None,
            status_refused: None,
            listing_due: None,
            listed_for: None,
            held: Vec::new(),
            blank_at: None,
            sampled_at: None,
            inventory: None,
            pending: false,
            settings: Read::Unread,
            session_name: Read::Unread,
            actions: Vec::new(),
        };
        assert(r@ =~= EndpointState::fresh(side@, now));
        r
    }

    /// Bumped only when a rendered field changes, so the sidebar's per-frame
    /// comparison does not rebuild for agent churn nobody can see.
    pub fn generation(&self) -> (r: u64)
        ensures
            r == self@.generation,
    {
        self.generation
    }

    /// The server this is.
    pub fn side(&self) -> (r: &Side)
        ensures
            r@ == self@.side,
            *r == self.side,
    {
        &self.side
    }

    /// The panes last listed.
    pub fn agents(&self) -> (r: &Vec<Pane>)
        ensures
            r@ == self@.agents,
    {
        &self.agents
    }

    /// Unfiltered attachment details survive an unavailable display poll.
    pub fn attachment_pane(&self, terminal_id: &str) -> (r: Option<&PaneMetadata>)
        ensures
            match terminal_at(self@.attachment, terminal_id@) {
                Some(at) => r == Some(&self@.attachment[at]),
                None => r is None,
            },
    {
        let ghost all = self.attachment_panes@;
        let mut i: usize = 0;
        proof {
            assert(all.take(0) =~= Seq::<PaneMetadata>::empty());
        }
        while i < self.attachment_panes.len()
            invariant
                i <= self.attachment_panes@.len(),
                all == self.attachment_panes@,
                terminal_at(all.take(i as int), terminal_id@) is None,
            decreases self.attachment_panes@.len() - i,
        {
            assert(all.take(i + 1).drop_last() =~= all.take(i as int));
            assert(all.take(i + 1).last() == all[i as int]);
            if same(&self.attachment_panes[i].agent.terminal_id, terminal_id) {
                proof {
                    terminal_at_extends(all, terminal_id@, i + 1);
                }
                return Some(&self.attachment_panes[i]);
            }
            i += 1;
        }
        assert(all.take(all.len() as int) =~= all);
        None
    }

    /// When the successful listing began, so a focus change can reject a
    /// reply that was already in flight before it landed.
    pub fn sampled_at(&self) -> (r: Option<u64>)
        ensures
            r == self@.sampled_at,
    {
        self.sampled_at
    }

    /// The side's full membership, where a current listing carried it.
    pub fn inventory(&self) -> (r: Option<&PaneInventory>)
        ensures
            (match r {
                Some(i) => Some((i.sampled_at, texts(i.terminal_ids@))),
                None => None,
            }) == self@.inventory,
    {
        self.inventory.as_ref()
    }

    /// What herdr's config here says, once the read has landed.  Before that
    /// it is herdr's own defaults, which is what herdr would be running on if
    /// its config said nothing — except for the chord, which stays `None`
    /// until it is known, since naming one the user has rebound would be
    /// worse than naming none.
    pub fn settings(&self) -> (r: Settings)
        ensures
            r == (match self@.settings {
                Read::Done(settings) => settings,
                _ => Settings { detach: None, indicators: Indicators::Dots },
            }),
    {
        match &self.settings {
            Read::Done(settings) => settings.clone(),
            _ => Settings::default(),
        }
    }

    /// The running session's name here, once the read has landed.  `None`
    /// means the attach has to ask herdr itself.
    pub fn session_name(&self) -> (r: Option<String>)
        ensures
            r == (match self@.session_name {
                Read::Done(name) => Some(name),
                _ => None,
            }),
    {
        match &self.session_name {
            Read::Done(name) => Some(name.clone()),
            _ => None,
        }
    }

    pub(crate) fn ask(&mut self, action: Action)
        ensures
            final(self)@ == old(self)@.asking(action@),
    {
        let ghost before = self.actions@;
        self.actions.push(action);
        assert(actions(self.actions@) =~= actions(before).push(action@));
    }

    /// Records a failure, and asks for it to be said where it is new.
    pub(crate) fn say_failure(&mut self, error: &PollError)
        ensures
            final(self)@ == old(self)@.failure_said(error@),
    {
        let code = error.code();
        let novel = self.reach.record_failure(error);
        if novel && !same(code, NO_SERVER) {
            self.ask(Action::Warn(code.to_owned()));
        }
        if novel && self.reach.abandoned() {
            self.ask(Action::SayGivenUp(code.to_owned()));
        }
    }

    fn note_success(&mut self)
        ensures
            final(self)@ == old(self)@.answered(),
    {
        self.reach.record_success();
        self.blank_at = None;
    }

    pub(crate) fn forget_listing(&mut self)
        ensures
            final(self)@ == old(self)@.forgotten(),
    {
        self.sampled_at = None;
        mark_stale(&mut self.attachment_panes);
    }

    fn expire_grace(&mut self, now: u64)
        ensures
            final(self)@ == old(self)@.grace_expired(now),
    {
        let expired = match self.blank_at {
            Some(at) => at <= now,
            None => false,
        };
        if !expired {
            return;
        }
        self.forget_listing();
        if self.agents.len() > 0 {
            self.agents = Vec::new();
            self.generation = self.generation.wrapping_add(1);
        }
    }

    fn start_grace(&mut self, now: u64)
        requires
            countable(now),
        ensures
            final(self)@ == old(self)@.grace_started(now),
    {
        if self.blank_at.is_none() {
            self.blank_at = Some(now + LISTING_GRACE);
        }
    }

    fn note_patch(&mut self, changed: bool, now: u64)
        ensures
            final(self)@ == old(self)@.patched(changed, now),
    {
        if changed {
            self.generation = self.generation.wrapping_add(1);
            // A patch is herdr's state as of now, and a view sync follows only
            // a sample newer than its own last focus move.
            if self.sampled_at.is_some() {
                self.sampled_at = Some(now);
            }
        }
    }

    fn apply_status(&mut self, pane_id: &str, status: PaneStatus) -> (changed: bool)
        ensures
            final(self)@ == (EndpointState {
                agents: all_with_status(old(self)@.agents, pane_id@, status),
                attachment: held_with_status(old(self)@.attachment, pane_id@, status),
                ..old(self)@
            }),
            changed == old(self)@.status_event_changes(pane_id@, status),
    {
        let ghost start = self@;
        let mut changed = false;
        let mut i: usize = 0;
        while i < self.agents.len()
            invariant
                i <= self.agents@.len(),
                self@ == (EndpointState { agents: self.agents@, ..start }),
                self.agents@.len() == start.agents.len(),
                forall|k: int|
                    0 <= k < i ==> #[trigger] self.agents@[k] == with_status(start.agents[k], pane_id@, status),
                forall|k: int| i <= k < start.agents.len() ==> #[trigger] self.agents@[k] == start.agents[k],
                changed == exists|k: int| 0 <= k < i && status_changes(#[trigger] start.agents[k], pane_id@, status),
            decreases self.agents@.len() - i,
        {
            assert(self.agents@[i as int] == start.agents[i as int]);
            if set_status(&mut self.agents[i], pane_id, status) {
                changed = true;
            }
            i += 1;
        }
        assert(self.agents@ =~= all_with_status(start.agents, pane_id@, status));
        let ghost rows = self.agents@;
        let ghost from_rows = changed;
        let mut i: usize = 0;
        while i < self.attachment_panes.len()
            invariant
                i <= self.attachment_panes@.len(),
                self@ == (EndpointState { agents: rows, attachment: self.attachment_panes@, ..start }),
                self.attachment_panes@.len() == start.attachment.len(),
                forall|k: int|
                    0 <= k < i ==> #[trigger] self.attachment_panes@[k] == (if start.attachment[k].current {
                        PaneMetadata { agent: with_status(start.attachment[k].agent, pane_id@, status), current: true }
                    } else {
                        start.attachment[k]
                    }),
                forall|k: int|
                    i <= k < start.attachment.len() ==> #[trigger] self.attachment_panes@[k] == start.attachment[k],
                changed == (from_rows || exists|k: int|
                    0 <= k < i && (#[trigger] start.attachment[k]).current && status_changes(
                        start.attachment[k].agent,
                        pane_id@,
                        status,
                    )),
            decreases self.attachment_panes@.len() - i,
        {
            assert(self.attachment_panes@[i as int] == start.attachment[i as int]);
            if self.attachment_panes[i].current {
                if set_status(&mut self.attachment_panes[i].agent, pane_id, status) {
                    changed = true;
                }
            }
            i += 1;
        }
        assert(self.attachment_panes@ =~= held_with_status(start.attachment, pane_id@, status));
        changed
    }

    fn apply_focus(&mut self, pane_id: &str) -> (changed: bool)
        ensures
            final(self)@ == (EndpointState {
                agents: all_with_focus(old(self)@.agents, pane_id@),
                attachment: held_with_focus(old(self)@.attachment, pane_id@),
                ..old(self)@
            }),
            changed == old(self)@.focus_event_changes(pane_id@),
    {
        let ghost start = self@;
        let mut changed = false;
        let mut i: usize = 0;
        while i < self.agents.len()
            invariant
                i <= self.agents@.len(),
                self@ == (EndpointState { agents: self.agents@, ..start }),
                self.agents@.len() == start.agents.len(),
                forall|k: int| 0 <= k < i ==> #[trigger] self.agents@[k] == with_focus(start.agents[k], pane_id@),
                forall|k: int| i <= k < start.agents.len() ==> #[trigger] self.agents@[k] == start.agents[k],
                changed == exists|k: int|
                    0 <= k < i && (#[trigger] start.agents[k]).focused != (start.agents[k].pane_id@ == pane_id@),
            decreases self.agents@.len() - i,
        {
            assert(self.agents@[i as int] == start.agents[i as int]);
            if set_focus(&mut self.agents[i], pane_id) {
                changed = true;
            }
            i += 1;
        }
        assert(self.agents@ =~= all_with_focus(start.agents, pane_id@));
        let ghost rows = self.agents@;
        let ghost from_rows = changed;
        let mut i: usize = 0;
        while i < self.attachment_panes.len()
            invariant
                i <= self.attachment_panes@.len(),
                self@ == (EndpointState { agents: rows, attachment: self.attachment_panes@, ..start }),
                self.attachment_panes@.len() == start.attachment.len(),
                forall|k: int|
                    0 <= k < i ==> #[trigger] self.attachment_panes@[k] == (if start.attachment[k].current {
                        PaneMetadata { agent: with_focus(start.attachment[k].agent, pane_id@), current: true }
                    } else {
                        start.attachment[k]
                    }),
                forall|k: int|
                    i <= k < start.attachment.len() ==> #[trigger] self.attachment_panes@[k] == start.attachment[k],
                changed == (from_rows || exists|k: int|
                    0 <= k < i && (#[trigger] start.attachment[k]).current && start.attachment[k].agent.focused != (
                    start.attachment[k].agent.pane_id@ == pane_id@)),
            decreases self.attachment_panes@.len() - i,
        {
            assert(self.attachment_panes@[i as int] == start.attachment[i as int]);
            if self.attachment_panes[i].current {
                if set_focus(&mut self.attachment_panes[i].agent, pane_id) {
                    changed = true;
                }
            }
            i += 1;
        }
        assert(self.attachment_panes@ =~= held_with_focus(start.attachment, pane_id@));
        changed
    }

    fn apply_update(&mut self, updated: Pane, now: u64)
        ensures
            final(self)@ == old(self)@.updated(updated, now),
    {
        let hides_shells = match self.listed_for {
            Some((Listing::Agents, false)) => true,
            _ => false,
        };
        let mut changed = false;
        if let Some(at) = first_pane(&self.agents, &updated.pane_id) {
            if hides_shells && updated.status.is_none() {
                self.listing_due = Some(now);
            } else {
                changed = row_changed(&self.agents[at], &updated);
                self.agents.set(at, updated.clone());
            }
        }
        if let Some(at) = first_current(&self.attachment_panes, &updated.pane_id) {
            self.attachment_panes.set(at, PaneMetadata { agent: updated, current: true });
        }
        self.note_patch(changed, now);
    }

    fn apply(&mut self, event: Event, now: u64)
        ensures
            final(self)@ == old(self)@.applied(event, now),
    {
        match event {
            Event::Changed => {
                self.listing_due = Some(now);
            },
            Event::Status { pane_id, status } => {
                let changed = self.apply_status(&pane_id, status);
                self.note_patch(changed, now);
            },
            Event::Focused { pane_id } => {
                let changed = self.apply_focus(&pane_id);
                self.note_patch(changed, now);
            },
            Event::Updated(updated) => {
                self.apply_update(updated, now);
            },
        }
    }

    fn receive(&mut self, event: Event, now: u64)
        ensures
            final(self)@ == old(self)@.received(event, now),
    {
        if self.pending && !matches!(event, Event::Changed) {
            self.held.push(event.clone());
        }
        self.apply(event, now);
    }

    fn link_ended(&mut self, reason: Option<PollError>, now: u64)
        requires
            countable(now),
        ensures
            final(self)@ == old(self)@.link_ended(
                match reason {
                    Some(error) => Some(error@),
                    None => None,
                },
                now,
            ),
    {
        let failures: usize = match self.link {
            Link::Connecting { failures } => if failures == usize::MAX {
                failures
            } else {
                failures + 1
            },
            _ => 0,
        };
        // Only a stream that was up has a listing behind it to retire; a
        // reconnect that failed found everything already retired.
        if self.link == Link::Up {
            self.status = None;
            self.inventory = None;
            self.session_name = Read::Unread;
            self.start_grace(now);
            self.ask(Action::WakeAfter(LISTING_GRACE));
        }
        if let Some(error) = &reason {
            self.say_failure(error);
            if self.reach.abandoned() {
                self.link = Link::Abandoned;
                return;
            }
        }
        let delay = backoff_delay(failures);
        self.link = Link::Down { failures, retry_at: now + delay };
        self.ask(Action::WakeAfter(delay));
    }

    fn tell_link(&mut self, messages: Vec<Message>, now: u64)
        requires
            countable(now),
        ensures
            final(self)@ == old(self)@.link_told(messages@, now),
    {
        let ghost start = self@;
        let ghost all = messages@;
        let mut rest = messages;
        while rest.len() > 0
            invariant_except_break
                start.link_told(all, now) == self@.link_told(rest@, now),
            invariant
                countable(now),
            ensures
                self@ == start.link_told(all, now),
            decreases rest@.len(),
        {
            let ghost here = self@;
            let ghost left = rest@;
            let message = rest.remove(0);
            assert(rest@ =~= left.drop_first());
            match message {
                Message::Started => {
                    if let Link::Connecting { failures: _ } = self.link {
                        self.link = Link::Up;
                    }
                    self.note_success();
                    self.listing_due = Some(now);
                    assert(self@ =~= here.link_started(now));
                },
                Message::Event(event) => self.receive(event, now),
                Message::Ended(reason) => {
                    self.link_ended(reason, now);
                    break;
                },
            }
        }
    }

    /// Reads the lifecycle stream, and starts one when a reconnect is due.
    fn advance_link(&mut self, messages: Vec<Message>, now: u64)
        requires
            countable(now),
        ensures
            final(self)@ == old(self)@.link_advanced(messages@, now),
    {
        match self.link {
            Link::Down { failures, retry_at } => {
                if retry_at <= now {
                    self.link = Link::Connecting { failures };
                    self.ask(Action::OpenLink);
                }
            },
            Link::Abandoned => {},
            _ => self.tell_link(messages, now),
        }
    }

    /// Reads the status stream.  A refusal is remembered against the panes it
    /// named, and a stream that ends is dropped; the next listing decides
    /// whether another is worth opening.
    fn advance_status(&mut self, messages: Vec<Message>, now: u64)
        ensures
            final(self)@ == old(self)@.status_advanced(messages@, now),
    {
        if self.status.is_none() {
            return;
        }
        let ghost start = self@;
        let ghost all = messages@;
        let mut rest = messages;
        while rest.len() > 0
            invariant_except_break
                start.status_told(all, now) == self@.status_told(rest@, now),
            ensures
                self@ == start.status_told(all, now),
            decreases rest@.len(),
        {
            let ghost here = self@;
            let ghost left = rest@;
            let message = rest.remove(0);
            assert(rest@ =~= left.drop_first());
            match message {
                // herdr streams no status a pane already had, so a change
                // between the listing and this ack is only learned by listing
                // again.
                Message::Started => {
                    self.listing_due = Some(now);
                },
                Message::Event(event) => self.receive(event, now),
                Message::Ended(reason) => {
                    let ids = self.status.take();
                    if let Some(error) = &reason {
                        self.status_refused = ids;
                        self.ask(Action::SayStatusRefused(error.code().to_owned()));
                    }
                    assert(self@ =~= here.status_ended(
                        match reason {
                            Some(error) => Some(error@),
                            None => None,
                        },
                    ));
                    break;
                },
            }
        }
    }

    fn adopt_membership(&mut self, reply: &ListingReply, attached: bool)
        ensures
            final(self)@ == old(self)@.membership_adopted(reply@, attached),
    {
        if attached {
            match &reply.inventory {
                Some(Ok(terminal_ids)) => {
                    keep_members(&mut self.attachment_panes, terminal_ids);
                    mark_stale(&mut self.attachment_panes);
                    refresh_all(&mut self.attachment_panes, &reply.agents);
                    self.note_success();
                    let ids = copy_texts(terminal_ids);
                    self.inventory = Some(PaneInventory { sampled_at: reply.sampled_at, terminal_ids: ids });
                },
                Some(Err(error)) => {
                    self.inventory = None;
                    self.forget_listing();
                    self.say_failure(error);
                },
                None => {
                    self.note_success();
                    self.inventory = None;
                    mark_stale(&mut self.attachment_panes);
                },
            }
        } else {
            self.note_success();
            self.inventory = None;
            self.attachment_panes = Vec::new();
        }
    }

    /// Take what a listing answered: the rows it shows, and what it says about
    /// the attached panes.
    pub fn adopt_reply(&mut self, reply: ListingReply, display: Listing, attached: bool)
        ensures
            final(self)@ == old(self)@.adopted(reply@, display, attached),
    {
        self.sampled_at = Some(reply.sampled_at);
        self.adopt_membership(&reply, attached);
        let listing = reply.listing;
        let agents = if display == Listing::Agents && listing == Listing::Panes {
            keep_agents(reply.agents)
        } else {
            reply.agents
        };
        if rendered_differs(&self.agents, &agents) {
            self.generation = self.generation.wrapping_add(1);
        }
        self.agents = agents;
    }

    fn replay(&mut self, now: u64)
        ensures
            final(self)@ == old(self)@.replayed(now),
    {
        let ghost start = EndpointState { held: Seq::empty(), ..self@ };
        let mut held: Vec<Event> = Vec::new();
        std::mem::swap(&mut held, &mut self.held);
        let ghost all = held@;
        let mut i: usize = 0;
        proof {
            assert(all.take(0) =~= Seq::<Event>::empty());
            assert(self@ =~= start);
        }
        while i < held.len()
            invariant
                i <= held@.len(),
                all == held@,
                self@ == start.all_applied(all.take(i as int), now),
            decreases held@.len() - i,
        {
            assert(all.take(i + 1).drop_last() =~= all.take(i as int));
            assert(all.take(i + 1).last() == all[i as int]);
            self.apply(held[i].clone(), now);
            i += 1;
        }
        assert(all.take(all.len() as int) =~= all);
    }

    pub(crate) fn start_reads(&mut self)
        ensures
            final(self)@ == old(self)@.reads_started(),
    {
        if matches!(self.settings, Read::Unread) {
            self.settings = Read::Pending;
            self.ask(Action::ReadSettings);
        }
        if matches!(self.session_name, Read::Unread) {
            self.session_name = Read::Pending;
            self.ask(Action::ReadSessionName);
        }
    }

    /// A listing that failed while the stream is up is run again shortly;
    /// the stream says nothing about what the failed one would have shown.
    fn listing_failed(&mut self, error: &PollError, now: u64)
        requires
            countable(now),
        ensures
            final(self)@ == old(self)@.listing_failed(error@, now),
    {
        // Held patches belong on top of the listing that failed; the next one
        // samples herdr after them.
        self.held = Vec::new();
        // Membership is not held back: a pane is removed on a listing that
        // carries every pane but that one, which a failure is not.
        self.inventory = None;
        self.start_grace(now);
        self.expire_grace(now);
        self.say_failure(error);
        if self.link == Link::Up {
            self.listing_due = Some(now + LISTING_RETRY);
            self.ask(Action::WakeAfter(LISTING_RETRY));
        }
    }

    fn land_listing(
        &mut self,
        landed: Landed<Result<ListingReply, PollError>>,
        display: Listing,
        attached: bool,
        now: u64,
    )
        requires
            countable(now),
        ensures
            final(self)@ == old(self)@.listing_landed(landed_reply(landed), display, attached, now),
    {
        if !self.pending {
            return;
        }
        match landed {
            Landed::Waiting => {},
            Landed::Value(Ok(reply)) => {
                self.adopt_reply(reply, display, attached);
                self.replay(now);
                self.start_reads();
                self.pending = false;
            },
            Landed::Value(Err(error)) => {
                self.listing_failed(&error, now);
                // herdr restarting may name its session differently, and
                // attaching to the old name reaches nothing.
                self.session_name = Read::Unread;
                self.pending = false;
            },
            Landed::Panicked => {
                self.listing_failed(&PollError::Absent("poll_panicked"), now);
                self.pending = false;
            },
        }
    }

    /// Adopt a landed config read.  Both halves are part of what a row
    /// renders, so arriving late still has to invalidate the sidebar's
    /// comparison.  A side that could not be read falls back to herdr's own
    /// defaults rather than to nothing.
    pub(crate) fn advance_settings(&mut self, landed: Landed<Option<Settings>>)
        ensures
            final(self)@ == old(self)@.settings_landed(landed),
    {
        if !matches!(self.settings, Read::Pending) {
            return;
        }
        match landed {
            Landed::Waiting => {},
            Landed::Value(read) => {
                let settings = match read {
                    Some(settings) => settings,
                    None => Settings::default(),
                };
                self.settings = Read::Done(settings);
                self.generation = self.generation.wrapping_add(1);
            },
            Landed::Panicked => {
                self.settings = Read::Done(Settings::default());
            },
        }
    }

    /// Adopt a landed session-name read.  A read that answered nothing goes
    /// back to unread rather than to a guess: the name is what an attach
    /// targets, so asking again next tick beats attaching to a name herdr
    /// never gave.
    pub(crate) fn advance_session_name(&mut self, landed: Landed<Option<String>>)
        ensures
            final(self)@ == old(self)@.session_landed(landed),
    {
        if !matches!(self.session_name, Read::Pending) {
            return;
        }
        match landed {
            Landed::Waiting => {},
            Landed::Value(Some(name)) => {
                self.session_name = Read::Done(name);
            },
            Landed::Value(None) => {
                self.session_name = Read::Unread;
            },
            Landed::Panicked => {
                self.session_name = Read::Unread;
            },
        }
    }

    pub(crate) fn seed(&mut self, attached: bool)
        ensures
            final(self)@ == old(self)@.seeded(attached),
    {
        if !attached || self.attachment_panes.len() > 0 {
            return;
        }
        let ghost start = self@;
        let current = self.sampled_at.is_some();
        let mut i: usize = 0;
        while i < self.agents.len()
            invariant
                i <= self.agents@.len(),
                self@ == (EndpointState { attachment: self.attachment_panes@, ..start }),
                current == (start.sampled_at is Some),
                self.attachment_panes@.len() == i,
                forall|k: int|
                    0 <= k < i ==> #[trigger] self.attachment_panes@[k] == (PaneMetadata {
                        agent: start.agents[k],
                        current,
                    }),
            decreases self.agents@.len() - i,
        {
            let agent = self.agents[i].clone();
            self.attachment_panes.push(PaneMetadata { agent, current });
            i += 1;
        }
        assert(self.attachment_panes@ =~= start.agents.map_values(
            |agent: Pane| PaneMetadata { agent, current: start.sampled_at is Some },
        ));
    }

    fn watched_ids(&self) -> (r: Vec<String>)
        ensures
            texts(r@) == self@.watched(),
    {
        let mut ids: Vec<String> = Vec::new();
        let ghost rows = self.agents@;
        let mut i: usize = 0;
        proof {
            assert(rows.take(0) =~= Seq::<Pane>::empty());
            assert(texts(ids@) =~= Seq::<Seq<char>>::empty());
        }
        while i < self.agents.len()
            invariant
                i <= self.agents@.len(),
                rows == self.agents@,
                texts(ids@) == agent_ids(rows.take(i as int)),
            decreases self.agents@.len() - i,
        {
            let ghost before = ids@;
            assert(rows.take(i + 1).drop_last() =~= rows.take(i as int));
            assert(rows.take(i + 1).last() == rows[i as int]);
            if self.agents[i].status.is_some() {
                ids.push(self.agents[i].pane_id.clone());
                assert(texts(ids@) =~= texts(before).push(rows[i as int].pane_id@));
            }
            i += 1;
        }
        assert(rows.take(rows.len() as int) =~= rows);
        let ghost head = agent_ids(rows);
        let ghost held = self.attachment_panes@;
        let mut i: usize = 0;
        proof {
            assert(held.take(0) =~= Seq::<PaneMetadata>::empty());
            assert(head + held_ids(held.take(0)) =~= head);
        }
        while i < self.attachment_panes.len()
            invariant
                i <= self.attachment_panes@.len(),
                held == self.attachment_panes@,
                texts(ids@) == head + held_ids(held.take(i as int)),
            decreases self.attachment_panes@.len() - i,
        {
            let ghost before = ids@;
            assert(held.take(i + 1).drop_last() =~= held.take(i as int));
            assert(held.take(i + 1).last() == held[i as int]);
            if self.attachment_panes[i].current && self.attachment_panes[i].agent.status.is_some() {
                ids.push(self.attachment_panes[i].agent.pane_id.clone());
                assert(texts(ids@) =~= texts(before).push(held[i as int].agent.pane_id@));
                assert(texts(ids@) =~= head + held_ids(held.take(i + 1)));
            }
            i += 1;
        }
        assert(held.take(held.len() as int) =~= held);
        sort_set(ids)
    }

    /// Keeps the status subscription naming exactly the agents last listed.
    /// Each entry costs herdr a pane lookup every delivery tick, so a pane
    /// with no agent in it is left out; one that gains an agent is announced
    /// by an event that relists.
    fn sync_status(&mut self)
        ensures
            final(self)@ == old(self)@.status_synced(),
    {
        let ids = self.watched_ids();
        let subscribed = match &self.status {
            Some(named) => same_texts(named, &ids),
            None => false,
        };
        let refused = match &self.status_refused {
            Some(named) => same_texts(named, &ids),
            None => false,
        };
        if subscribed || refused {
            return;
        }
        if ids.len() == 0 {
            assert(texts(ids@).len() == 0);
            self.status = None;
        } else {
            assert(texts(ids@).len() > 0);
            let named = copy_texts(&ids);
            self.status = Some(named);
            self.ask(Action::OpenStatus(ids));
        }
    }

    fn start_due(&mut self, listing: Listing, attached: bool, now: u64)
        ensures
            final(self)@ == old(self)@.due_started(listing, attached, now),
    {
        if self.link != Link::Up {
            self.expire_grace(now);
            return;
        }
        if self.pending {
            return;
        }
        let asked = match self.listed_for {
            Some((was, with)) => was == listing && with == attached,
            None => false,
        };
        if !asked {
            self.listing_due = Some(now);
        }
        let due = match self.listing_due {
            Some(at) => at <= now,
            None => false,
        };
        if due {
            self.listing_due = None;
            self.listed_for = Some((listing, attached));
            self.pending = true;
            let wanted = if attached {
                Listing::Panes
            } else {
                listing
            };
            self.ask(Action::StartListing { listing: wanted, attached });
            return;
        }
        self.sync_status();
    }

    /// Reads what the streams said, adopts a landed listing, and answers with
    /// whatever is to be started.
    pub fn poll(&mut self, listing: Listing, attached: bool, inputs: Inputs, now: u64) -> (r: Vec<Action>)
        requires
            countable(now),
        ensures
            ({
                let after = (EndpointState { actions: Seq::empty(), ..old(self)@ }).polled(
                    listing,
                    attached,
                    inputs,
                    now,
                );
                &&& actions(r@) == after.actions
                &&& final(self)@ == (EndpointState { actions: Seq::empty(), ..after })
            }),
    {
        self.actions = Vec::new();
        assert(self@ =~= (EndpointState { actions: Seq::empty(), ..old(self)@ }));
        self.seed(attached);
        self.advance_settings(inputs.settings);
        self.advance_session_name(inputs.session_name);
        self.advance_link(inputs.link, now);
        self.advance_status(inputs.status, now);
        self.land_listing(inputs.listing, listing, attached, now);
        if !attached {
            self.inventory = None;
            self.attachment_panes = Vec::new();
        }
        self.start_due(listing, attached, now);
        let ghost after = self@;
        let mut out: Vec<Action> = Vec::new();
        std::mem::swap(&mut out, &mut self.actions);
        assert(self@ =~= (EndpointState { actions: Seq::empty(), ..after }));
        out
    }

    /// Reconnects a side that has no stream, now rather than on the backoff.
    /// For a user action aimed at the side, which is the moment herdr being
    /// up matters most.
    pub fn reconnect_now(&mut self, now: u64)
        ensures
            final(self)@ == old(self)@.reconnected(now),
            final(self)@ == (EndpointState {
                link: match old(self)@.link {
                    Link::Down { failures, retry_at: _ } => Link::Down { failures, retry_at: now },
                    other => other,
                },
                ..old(self)@
            }),
    {
        if let Link::Down { failures, retry_at: _ } = self.link {
            self.link = Link::Down { failures, retry_at: now };
        }
    }

    /// Drops this side's streams and reconnects at once.  For a herdr that
    /// stopped answering commands without closing its streams, which is the
    /// one way a hung server can be noticed.
    pub fn restart(&mut self, now: u64)
        ensures
            final(self)@ == old(self)@.restarted(now),
            old(self)@.link is Abandoned ==> final(self)@ == old(self)@,
            !(old(self)@.link is Abandoned) ==> final(self)@ == (EndpointState {
                status: None,
                link: Link::Down { failures: 0, retry_at: now },
                ..old(self)@
            }),
    {
        if self.link == Link::Abandoned {
            return;
        }
        self.status = None;
        self.link = Link::Down { failures: 0, retry_at: now };
    }
}

/// A copy of a list of texts.
pub fn copy_texts(list: &Vec<String>) -> (r: Vec<String>)
    ensures
        r@ == list@,
{
    let mut r: Vec<String> = Vec::new();
    let mut i: usize = 0;
    while i < list.len()
        invariant
            i <= list@.len(),
            r@ == list@.take(i as int),
        decreases list@.len() - i,
    {
        r.push(list[i].clone());
        i += 1;
        assert(list@.take(i as int) =~= list@.take(i - 1).push(list@[i - 1]));
    }
    assert(list@.take(list@.len() as int) =~= list@);
    r
}

} // verus!

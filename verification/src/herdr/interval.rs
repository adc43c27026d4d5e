//! An endpoint listed on a clock.  No stream says when such a side changed, so
//! it is listed again once the interval has passed, and a side with no herdr
//! in it is asked less often than one that answers.

use vstd::prelude::*;

use crate::herdr::model::{Listing, PollError, Settings};
#[allow(unused_imports)]
use crate::herdr::model::PollErrorView;
use crate::herdr::poll::{Action, EndpointCache, Landed, ListingReply, Read};
#[allow(unused_imports)]
use crate::herdr::poll::{
    actions, bumped, landed_reply, ActionView, EndpointState, ReplyView,
};
use crate::side::Side;
#[allow(unused_imports)]
use crate::side::SideView;

verus! {

/// What an endpoint listed on a clock is told about the work beside it.
pub struct IntervalInputs {
    pub listing: Landed<Result<ListingReply, PollError>>,
    pub settings: Landed<Option<Settings>>,
    pub session_name: Landed<Option<String>>,
}

/// What an endpoint knows, and when it was last asked.
#[verifier::ext_equal]
pub struct IntervalState {
    pub endpoint: EndpointState,
    pub last_attempt: Option<u64>,
}

/// How long ago a side was last asked.  One never asked is due at once.
pub open spec fn waited(last_attempt: Option<u64>, interval: u64, now: u64) -> int {
    match last_attempt {
        Some(at) => if at <= now {
            now - at
        } else {
            0
        },
        None => interval as int,
    }
}

/// After a listing that produced no agents: the membership and the live
/// fields of what is attached are gone, and the failure is counted.
pub open spec fn noted(s: EndpointState, error: PollErrorView) -> EndpointState {
    (EndpointState { inventory: None, ..s }).forgotten().failure_said(error)
}

/// The rows of a side that answered with an error are dropped at once.
pub open spec fn emptied(s: EndpointState) -> EndpointState {
    if s.agents.len() > 0 {
        EndpointState { agents: Seq::empty(), generation: bumped(s.generation), ..s }
    } else {
        s
    }
}

/// The listing in flight, where it has landed.
pub open spec fn landed(
    s: EndpointState,
    outcome: Landed<Result<ReplyView, PollErrorView>>,
    display: Listing,
    attached: bool,
) -> EndpointState {
    if !s.pending {
        s
    } else {
        match outcome {
            Landed::Waiting => s,
            Landed::Value(Ok(reply)) => EndpointState {
                pending: false,
                ..s.adopted(reply, display, attached).reads_started()
            },
            Landed::Value(Err(error)) => EndpointState {
                pending: false,
                ..emptied(EndpointState { session_name: Read::Unread, ..noted(s, error) })
            },
            Landed::Panicked => EndpointState {
                pending: false,
                ..noted(s, PollErrorView::Absent("poll_panicked"@))
            },
        }
    }
}

impl IntervalState {
    /// A side nothing is known of.
    pub open spec fn fresh(side: SideView) -> Self {
        IntervalState { endpoint: EndpointState::fresh(side, 0), last_attempt: None }
    }

    /// Whether the side is asked again.  A side with attached sessions is
    /// asked on the interval whatever it answered last.
    pub open spec fn due(self, interval: u64, attached: bool, now: u64) -> bool {
        let since = waited(self.last_attempt, interval, now);
        since >= interval && (attached || self.endpoint.reach.should_retry(since))
    }

    /// The endpoint asked again, where it is due.
    pub open spec fn asked(self, interval: u64, listing: Listing, attached: bool, now: u64) -> Self {
        if self.due(interval, attached, now) {
            IntervalState {
                endpoint: (EndpointState { pending: true, ..self.endpoint }).asking(
                    ActionView::StartListing {
                        listing: if attached {
                            Listing::Panes
                        } else {
                            listing
                        },
                        attached,
                    },
                ),
                last_attempt: Some(now),
            }
        } else {
            self
        }
    }

    /// A poll.  While a listing is in flight nothing else happens.
    pub open spec fn polled(
        self,
        interval: u64,
        listing: Listing,
        attached: bool,
        inputs: IntervalInputs,
        now: u64,
    ) -> Self {
        let read = self.endpoint.seeded(attached).settings_landed(inputs.settings).session_landed(
            inputs.session_name,
        );
        let s = landed(read, landed_reply(inputs.listing), listing, attached);
        if s.pending {
            IntervalState { endpoint: s, ..self }
        } else {
            (IntervalState { endpoint: s.detached(attached), ..self }).asked(interval, listing, attached, now)
        }
    }
}

/// One side's agents, listed on a clock.
pub struct IntervalCache {
    pub endpoint: EndpointCache,
    pub last_attempt: Option<u64>,
}

impl View for IntervalCache {
    type V = IntervalState;

    open spec fn view(&self) -> IntervalState {
        IntervalState { endpoint: self.endpoint@, last_attempt: self.last_attempt }
    }
}

impl IntervalCache {
    /// A side nothing is known of.
    pub fn new(side: Side) -> (r: Self)
        ensures
            r@ == IntervalState::fresh(side@),
    {
        IntervalCache { endpoint: EndpointCache::new(side, 0), last_attempt: None }
    }

    /// Whether the side is asked again after that interval.
    pub fn poll_due(&self, interval: u64, attached: bool, now: u64) -> (r: bool)
        ensures
            r == self@.due(interval, attached, now),
    {
        let since: u64 = match self.last_attempt {
            Some(at) => if at <= now {
                now - at
            } else {
                0
            },
            None => interval,
        };
        since >= interval && (attached || self.endpoint.reach.should_retry(since))
    }

    /// Records one poll that produced no agents.
    fn note_failure(&mut self, error: &PollError)
        ensures
            final(self)@ == (IntervalState { endpoint: noted(old(self)@.endpoint, error@), ..old(self)@ }),
    {
        self.endpoint.inventory = None;
        self.endpoint.forget_listing();
        self.endpoint.say_failure(error);
    }

    fn land_listing(
        &mut self,
        outcome: Landed<Result<ListingReply, PollError>>,
        display: Listing,
        attached: bool,
    )
        ensures
            final(self)@ == (IntervalState {
                endpoint: landed(old(self)@.endpoint, landed_reply(outcome), display, attached),
                ..old(self)@
            }),
    {
        if !self.endpoint.pending {
            return;
        }
        match outcome {
            Landed::Waiting => {},
            Landed::Value(Ok(reply)) => {
                self.endpoint.adopt_reply(reply, display, attached);
                self.endpoint.start_reads();
                self.endpoint.pending = false;
            },
            Landed::Value(Err(error)) => {
                self.note_failure(&error);
                // herdr restarting may name its session differently, and
                // attaching to the old name reaches nothing.
                self.endpoint.session_name = Read::Unread;
                if self.endpoint.agents.len() > 0 {
                    self.endpoint.agents = Vec::new();
                    self.endpoint.generation = self.endpoint.generation.wrapping_add(1);
                }
                self.endpoint.pending = false;
            },
            Landed::Panicked => {
                // A worker panic supplies no membership evidence.  Attached
                // sessions still need retries on the configured cadence.
                self.note_failure(&PollError::Absent("poll_panicked"));
                self.endpoint.pending = false;
            },
        }
    }

    /// Adopts a landed result and asks for a new listing when due.  What to
    /// start comes back in order, behind anything that was still to be started.
    pub fn poll(
        &mut self,
        interval: u64,
        listing: Listing,
        attached: bool,
        inputs: IntervalInputs,
        now: u64,
    ) -> (r: Vec<Action>)
        ensures
            final(self)@ == ({
                let s = old(self)@.polled(interval, listing, attached, inputs, now);
                IntervalState { endpoint: EndpointState { actions: Seq::empty(), ..s.endpoint }, ..s }
            }),
            actions(r@) == old(self)@.polled(interval, listing, attached, inputs, now).endpoint.actions,
    {
        let ghost start = self@;
        let ghost told = inputs;
        self.endpoint.seed(attached);
        self.endpoint.advance_settings(inputs.settings);
        self.endpoint.advance_session_name(inputs.session_name);
        self.land_listing(inputs.listing, listing, attached);
        if !self.endpoint.pending {
            if !attached {
                self.endpoint.inventory = None;
                self.endpoint.attachment_panes = Vec::new();
            }
            if self.poll_due(interval, attached, now) {
                self.last_attempt = Some(now);
                self.endpoint.pending = true;
                let listing = if attached {
                    Listing::Panes
                } else {
                    listing
                };
                self.endpoint.ask(Action::StartListing { listing, attached });
            }
        }
        assert(self@ =~= start.polled(interval, listing, attached, told, now));
        let mut out: Vec<Action> = Vec::new();
        std::mem::swap(&mut out, &mut self.endpoint.actions);
        assert(actions(Seq::<Action>::empty()) =~= Seq::empty());
        out
    }
}

/// A side is never asked twice within one interval, attached or not.
pub proof fn a_side_is_asked_once_an_interval(
    s: IntervalState,
    interval: u64,
    listing: Listing,
    attached: bool,
    now: u64,
    later: u64,
)
    requires
        s.due(interval, attached, now),
        now <= later < now + interval,
    ensures
        !s.asked(interval, listing, attached, now).due(interval, attached, later),
{
}

/// Attached sessions keep a side on the interval whatever it answered: a
/// failed listing, or one whose membership could not be read.
pub proof fn an_attached_side_is_always_retried(s: IntervalState, interval: u64, now: u64)
    requires
        s.last_attempt is Some ==> s.last_attempt->0 + interval <= now,
    ensures
        s.due(interval, true, now),
{
}

/// A side that never answered and has no herdr in it is not asked again unless
/// a session is attached to it.
pub proof fn an_abandoned_side_is_asked_only_for_its_sessions(s: IntervalState, interval: u64, now: u64)
    requires
        s.endpoint.reach.abandoned(),
    ensures
        !s.due(interval, false, now),
{
}

/// A listing that failed leaves no row and no membership, and keeps what was
/// known of the attached panes with their live fields gone.
pub proof fn a_failed_listing_keeps_the_attached_details(
    s: EndpointState,
    error: PollErrorView,
    display: Listing,
)
    requires
        s.pending,
    ensures
        ({
            let after = landed(s, Landed::Value(Err(error)), display, true);
            &&& after.agents.len() == 0
            &&& after.inventory is None
            &&& after.sampled_at is None
            &&& after.attachment.len() == s.attachment.len()
            &&& forall|i: int|
                0 <= i < s.attachment.len() ==> {
                    &&& !(#[trigger] after.attachment[i]).current
                    &&& after.attachment[i].agent.status is None
                    &&& !after.attachment[i].agent.focused
                    &&& after.attachment[i].agent.terminal_id == s.attachment[i].agent.terminal_id
                    &&& after.attachment[i].agent.title == s.attachment[i].agent.title
                }
        }),
{
}

} // verus!

//! Every herdr server that is talked to.  The native side is permanent; a WSL
//! side exists only while its distro's VM is up, because reaching into a
//! stopped distro boots it — seconds of disk I/O and a VM's worth of memory —
//! only to find that nothing is listening there.

use vstd::arithmetic::div_mod::*;
use vstd::prelude::*;

use crate::herdr::model::Listing;
use crate::herdr::poll::{Action, EndpointCache, Inputs, Landed};
#[allow(unused_imports)]
use crate::herdr::poll::{actions, bumped, countable, EndpointState};
use crate::side::Side;
#[allow(unused_imports)]
use crate::side::SideView;
use crate::text::is_listed;
#[allow(unused_imports)]
use crate::text::texts;

verus! {

/// How long a listing of running distros stands before it is taken again, in
/// nanoseconds.  Starting a distro is a human action, so noticing one on a
/// slower clock than the agent poll's is enough, and each listing is its own
/// `wsl.exe` spawn.
pub const DISTRO_REFRESH: u64 = 10_000_000_000;

/// Odd multiplier (the 64-bit golden ratio) that lifts a membership change
/// clear of the per-endpoint generation steps it is summed with.
pub const MEMBERSHIP_SCALE: u64 = 0x9E37_79B9_7F4A_7C15;

/// The counts there are in 64 bits.
pub open spec fn counts() -> int {
    0x1_0000_0000_0000_0000
}

/// Every herdr server that is talked to.
pub struct Endpoints {
    pub caches: Vec<EndpointCache>,
    /// Moves whenever an endpoint joins or leaves, so a set change reaches the
    /// sidebar even when the generations it replaces happen to sum the same.
    pub membership: u64,
    /// Whether a listing of running distros is in flight.
    pub running: bool,
    /// Latches while listings keep failing, so the reason is given once
    /// rather than every refresh.
    pub listing_failed: bool,
    pub last_refresh: Option<u64>,
}

/// What keeping the endpoint set in step came to.
#[derive(Debug, Clone, Copy, PartialEq, Eq, Structural)]
pub struct Refresh {
    /// The running distros are to be listed now.
    pub start: bool,
    /// The listing that landed failed, and the one before it had not.
    pub failure_is_new: bool,
}

/// The states of a list of endpoints.
pub open spec fn states(caches: Seq<EndpointCache>) -> Seq<EndpointState> {
    caches.map_values(|c: EndpointCache| c@)
}

/// The sum of the generations of a list of endpoints.
pub open spec fn total(list: Seq<EndpointState>) -> nat
    decreases list.len(),
{
    if list.len() == 0 {
        0
    } else {
        total(list.drop_last()) + list.last().generation as nat
    }
}

/// One number standing for a set of endpoints: the sum of their generations,
/// with the membership scaled clear of it.
pub open spec fn set_generation(membership: u64, list: Seq<EndpointState>) -> int {
    (membership as int * MEMBERSHIP_SCALE as int + total(list) as int) % counts()
}

/// Whether an endpoint stays while these distros run.
pub open spec fn stays(side: SideView, running: Seq<Seq<char>>) -> bool {
    match side {
        SideView::Native => true,
        SideView::Wsl(distro) => running.contains(distro),
    }
}

/// The endpoints that stay while these distros run.
pub open spec fn staying(list: Seq<EndpointState>, running: Seq<Seq<char>>) -> Seq<EndpointState> {
    list.filter(|s: EndpointState| stays(s.side, running))
}

/// Where the first endpoint of a side stands.
pub open spec fn side_at(list: Seq<EndpointState>, side: SideView) -> Option<int>
    decreases list.len(),
{
    if list.len() == 0 {
        None
    } else {
        match side_at(list.drop_last(), side) {
            Some(at) => Some(at),
            None => if list.last().side == side {
                Some(list.len() - 1)
            } else {
                None
            },
        }
    }
}

/// The place found holds that side and nothing before it does; none is found
/// exactly where no endpoint has the side.
pub proof fn side_at_is_first(list: Seq<EndpointState>, side: SideView)
    ensures
        match side_at(list, side) {
            Some(at) => 0 <= at < list.len() && list[at].side == side && forall|k: int|
                0 <= k < at ==> (#[trigger] list[k]).side != side,
            None => !has_side(list, side),
        },
    decreases list.len(),
{
    if list.len() > 0 {
        let front = list.drop_last();
        side_at_is_first(front, side);
        assert forall|k: int| 0 <= k < front.len() implies front[k] == #[trigger] list[k] by {}
        if side_at(front, side) is None {
            assert forall|k: int| 0 <= k < list.len() - 1 implies (#[trigger] list[k]).side != side by {
                assert(front[k] == list[k]);
            }
        }
    }
}

/// Where the first endpoint of a side stands among the caches.
pub fn find_side(caches: &Vec<EndpointCache>, side: &Side) -> (r: Option<usize>)
    ensures
        (match r {
            Some(at) => Some(at as int),
            None => None,
        }) == side_at(states(caches@), side@),
        r matches Some(at) ==> at < caches@.len(),
{
    let ghost all = states(caches@);
    let mut i: usize = 0;
    proof {
        assert(all.take(0) =~= Seq::<EndpointState>::empty());
    }
    while i < caches.len()
        invariant
            i <= caches@.len(),
            all == states(caches@),
            side_at(all.take(i as int), side@) is None,
        decreases caches@.len() - i,
    {
        assert(all.take(i + 1).drop_last() =~= all.take(i as int));
        assert(all.take(i + 1).last() == caches@[i as int]@);
        if caches[i].side().same_side(side) {
            proof {
                side_at_extends(all, side@, i + 1);
            }
            return Some(i);
        }
        i += 1;
    }
    assert(all.take(all.len() as int) =~= all);
    None
}

proof fn side_at_extends(list: Seq<EndpointState>, side: SideView, upto: int)
    requires
        0 <= upto <= list.len(),
        side_at(list.take(upto), side) is Some,
    ensures
        side_at(list, side) == side_at(list.take(upto), side),
    decreases list.len(),
{
    if upto == list.len() {
        assert(list.take(upto) =~= list);
    } else {
        let front = list.drop_last();
        assert(front.take(upto) =~= list.take(upto));
        side_at_extends(front, side, upto);
    }
}

/// Whether one of the endpoints is that side.
pub open spec fn has_side(list: Seq<EndpointState>, side: SideView) -> bool {
    exists|i: int| 0 <= i < list.len() && (#[trigger] list[i]).side == side
}

/// The endpoints with one for each running distro that had none.
pub open spec fn joined_by(list: Seq<EndpointState>, running: Seq<Seq<char>>, now: u64) -> Seq<EndpointState>
    decreases running.len(),
{
    if running.len() == 0 {
        list
    } else {
        let before = joined_by(list, running.drop_last(), now);
        let side = SideView::Wsl(running.last());
        if has_side(before, side) {
            before
        } else {
            before.push(EndpointState::fresh(side, now))
        }
    }
}

/// The endpoints after an answered listing of running distros.
pub open spec fn followed(list: Seq<EndpointState>, running: Seq<Seq<char>>, now: u64) -> Seq<EndpointState> {
    joined_by(staying(list, running), running, now)
}

/// Whether an answered listing changes which endpoints there are.
pub open spec fn set_changes(list: Seq<EndpointState>, running: Seq<Seq<char>>, now: u64) -> bool {
    ||| staying(list, running).len() != list.len()
    ||| followed(list, running, now).len() != staying(list, running).len()
}

/// The endpoints after a listing that failed: the WSL ones lose their
/// membership evidence and nothing else.
pub open spec fn unlisted(list: Seq<EndpointState>) -> Seq<EndpointState> {
    list.map_values(
        |s: EndpointState|
            if s.side is Wsl {
                EndpointState { inventory: None, ..s }
            } else {
                s
            },
    )
}

proof fn wrap_step(sum: int, acc: u64, g: u64)
    requires
        0 <= sum,
        acc as int == sum % counts(),
    ensures
        vstd::wrapping::u64_specs::wrapping_add(acc, g) as int == (sum + g as int) % counts(),
{
    let m = counts();
    lemma_fundamental_div_mod(sum, m);
    let q = sum / m;
    let b = acc as int + g as int;
    lemma_mod_multiples_vanish(q, b, m);
    assert(m * q + b == sum + g as int);
    if b >= m {
        lemma_mod_add_multiples_vanish(b - m, m);
        lemma_small_mod((b - m) as nat, m as nat);
    } else {
        lemma_small_mod(b as nat, m as nat);
    }
}

/// The distros are listed: none is being listed, and the last was long enough
/// ago.
pub open spec fn lists_now(under_way: bool, last: Option<u64>, now: u64) -> bool {
    !under_way && match last {
        Some(at) => now as int - at as int >= DISTRO_REFRESH,
        None => true,
    }
}

impl Endpoints {
    /// The native side alone.
    pub fn new(now: u64) -> (r: Self)
        ensures
            states(r.caches@) == seq![EndpointState::fresh(SideView::Native, now)],
            r.membership == 0,
            !r.running,
            !r.listing_failed,
            r.last_refresh is None,
    {
        let mut caches: Vec<EndpointCache> = Vec::new();
        caches.push(EndpointCache::new(Side::Native, now));
        assert(states(caches@) =~= seq![EndpointState::fresh(SideView::Native, now)]);
        Endpoints { caches, membership: 0, running: false, listing_failed: false, last_refresh: None }
    }

    /// Every endpoint.
    pub fn caches(&self) -> (r: &Vec<EndpointCache>)
        ensures
            *r == self.caches,
    {
        &self.caches
    }

    /// One number standing for every endpoint's rendered state, so the
    /// sidebar's per-frame comparison stays a `u64` compare.
    ///
    /// Membership enters scaled rather than added: an endpoint leaving takes
    /// its own generation out of the sum, and a membership step of one would
    /// cancel exactly against the endpoint whose generation is one — which is
    /// what a cache holds the moment its first agent lands.
    pub fn generation(&self) -> (r: u64)
        ensures
            r as int == set_generation(self.membership, states(self.caches@)),
    {
        let ghost all = states(self.caches@);
        let ghost base = self.membership as int * MEMBERSHIP_SCALE as int;
        let mut sum: u64 = self.membership.wrapping_mul(MEMBERSHIP_SCALE);
        proof {
            assert(0 <= base) by (nonlinear_arith)
                requires
                    base == self.membership as int * MEMBERSHIP_SCALE as int,
            ;
            lemma_mod_bound(base, counts());
            assert(all.take(0) =~= Seq::<EndpointState>::empty());
        }
        let mut i: usize = 0;
        while i < self.caches.len()
            invariant
                i <= self.caches@.len(),
                all == states(self.caches@),
                0 <= base,
                sum as int == (base + total(all.take(i as int)) as int) % counts(),
            decreases self.caches@.len() - i,
        {
            assert(all.take(i + 1).drop_last() =~= all.take(i as int));
            assert(all.take(i + 1).last() == self.caches@[i as int]@);
            let step: u64 = self.caches[i].generation();
            proof {
                wrap_step(base + total(all.take(i as int)) as int, sum, step);
            }
            sum = sum.wrapping_add(step);
            i += 1;
        }
        assert(all.take(all.len() as int) =~= all);
        sum
    }

    /// Where the endpoint of a side stands.
    pub fn position(&self, side: &Side) -> (r: Option<usize>)
        ensures
            (match r {
                Some(at) => Some(at as int),
                None => None,
            }) == side_at(states(self.caches@), side@),
    {
        find_side(&self.caches, side)
    }

    /// Refreshes one endpoint's agents, with what came of its work.  `None`
    /// where there is no such endpoint.
    pub fn poll(
        &mut self,
        side: &Side,
        listing: Listing,
        attached: bool,
        inputs: Inputs,
        now: u64,
    ) -> (r: Option<Vec<Action>>)
        requires
            countable(now),
        ensures
            match side_at(states(old(self).caches@), side@) {
                None => r is None && *final(self) == *old(self),
                Some(at) => {
                    let before = states(old(self).caches@)[at];
                    let after = (EndpointState { actions: Seq::empty(), ..before }).polled(
                        listing,
                        attached,
                        inputs,
                        now,
                    );
                    &&& r is Some
                    &&& actions((r->0)@) == after.actions
                    &&& states(final(self).caches@) == states(old(self).caches@).update(
                        at,
                        EndpointState { actions: Seq::empty(), ..after },
                    )
                    &&& final(self).membership == old(self).membership
                    &&& final(self).running == old(self).running
                    &&& final(self).listing_failed == old(self).listing_failed
                    &&& final(self).last_refresh == old(self).last_refresh
                },
            },
    {
        match self.position(side) {
            None => None,
            Some(at) => {
                let ghost before = states(self.caches@);
                proof {
                    side_at_is_first(before, side@);
                }
                let out = self.caches[at].poll(listing, attached, inputs, now);
                assert(states(self.caches@) =~= before.update(at as int, self.caches@[at as int]@));
                Some(out)
            },
        }
    }

    /// Adopts a listing of running distros: an endpoint appears when its
    /// distro starts and goes when it stops, since a stopped distro's agents
    /// went down with its VM.  The native endpoint is never one of them.
    pub fn adopt_running(&mut self, running: &Vec<String>, now: u64)
        ensures
            states(final(self).caches@) == followed(states(old(self).caches@), texts(running@), now),
            final(self).membership == (if set_changes(states(old(self).caches@), texts(running@), now) {
                bumped(old(self).membership)
            } else {
                old(self).membership
            }),
            final(self).running == old(self).running,
            final(self).listing_failed == old(self).listing_failed,
            final(self).last_refresh == old(self).last_refresh,
    {
        let ghost names = texts(running@);
        let ghost all = states(self.caches@);
        let ghost keep = |s: EndpointState| stays(s.side, names);
        let before = self.caches.len();
        let mut rest: Vec<EndpointCache> = Vec::new();
        std::mem::swap(&mut rest, &mut self.caches);
        let ghost taken = rest@;
        let mut kept: Vec<EndpointCache> = Vec::new();
        let ghost mut done: int = 0;
        proof {
            reveal(Seq::filter);
            assert(all.take(0) =~= Seq::<EndpointState>::empty());
            assert(taken.skip(0) =~= taken);
            assert(states(kept@) =~= Seq::<EndpointState>::empty());
        }
        while rest.len() > 0
            invariant
                0 <= done <= all.len(),
                all == states(taken),
                rest@ == taken.skip(done),
                names == texts(running@),
                keep == (|s: EndpointState| stays(s.side, names)),
                states(kept@) == all.take(done).filter(keep),
            decreases rest@.len(),
        {
            let cache = rest.remove(0);
            let ghost was = kept@;
            proof {
                reveal(Seq::filter);
                assert(cache@ == all[done]);
                assert(all.take(done + 1).drop_last() =~= all.take(done));
                assert(all.take(done + 1).last() == cache@);
                assert(taken.skip(done).remove(0) =~= taken.skip(done + 1));
                done = done + 1;
            }
            let stay = match cache.side() {
                Side::Native => true,
                Side::Wsl(distro) => is_listed(running, distro),
            };
            if stay {
                kept.push(cache);
                assert(states(kept@) =~= states(was).push(cache@));
            }
        }
        assert(all.take(all.len() as int) =~= all);
        self.caches = kept;
        let ghost here = staying(all, names);
        let mut changed = self.caches.len() != before;
        let middle = self.caches.len();
        assert(states(self.caches@).len() == middle);
        let mut i: usize = 0;
        proof {
            assert(names.take(0) =~= Seq::<Seq<char>>::empty());
        }
        while i < running.len()
            invariant
                i <= running@.len(),
                names == texts(running@),
                states(self.caches@) == joined_by(here, names.take(i as int), now),
                self.membership == old(self).membership,
                self.running == old(self).running,
                self.listing_failed == old(self).listing_failed,
                self.last_refresh == old(self).last_refresh,
            decreases running@.len() - i,
        {
            assert(names.take(i + 1).drop_last() =~= names.take(i as int));
            assert(names.take(i + 1).last() == running@[i as int]@);
            let side = Side::Wsl(running[i].clone());
            proof {
                side_at_is_first(states(self.caches@), side@);
            }
            match self.position(&side) {
                Some(_) => {},
                None => {
                    let ghost was = self.caches@;
                    let cache = EndpointCache::new(side, now);
                    self.caches.push(cache);
                    assert(states(self.caches@) =~= states(was).push(cache@));
                },
            }
            i += 1;
        }
        assert(names.take(names.len() as int) =~= names);
        assert(states(self.caches@).len() == self.caches@.len());
        if self.caches.len() != middle {
            changed = true;
        }
        if changed {
            self.membership = self.membership.wrapping_add(1);
        }
    }

    /// Takes what the listing answered.  A listing that failed is not
    /// evidence that nothing is running, so it leaves the endpoint set — and
    /// every endpoint's cached agents and backoff state — exactly as it is;
    /// only an answer may remove an endpoint.  Answers whether the failure is
    /// worth saying, which is once per run of failures.
    pub fn adopt_listing(&mut self, listing: Option<Vec<String>>, now: u64) -> (novel: bool)
        ensures
            novel == (listing is None && !old(self).listing_failed),
            listing matches Some(running) ==> {
                &&& states(final(self).caches@) == followed(states(old(self).caches@), texts(running@), now)
                &&& final(self).membership == (if set_changes(states(old(self).caches@), texts(running@), now) {
                    bumped(old(self).membership)
                } else {
                    old(self).membership
                })
                &&& !final(self).listing_failed
            },
            listing is None ==> {
                &&& states(final(self).caches@) == unlisted(states(old(self).caches@))
                &&& final(self).membership == old(self).membership
                &&& final(self).listing_failed
            },
            final(self).running == old(self).running,
            final(self).last_refresh == old(self).last_refresh,
    {
        match listing {
            Some(running) => {
                self.listing_failed = false;
                self.adopt_running(&running, now);
                false
            },
            None => {
                let ghost start = states(self.caches@);
                let mut i: usize = 0;
                while i < self.caches.len()
                    invariant
                        i <= self.caches@.len(),
                        self.caches@.len() == start.len(),
                        forall|k: int| 0 <= k < i ==> (#[trigger] self.caches@[k])@ == unlisted(start)[k],
                        forall|k: int| i <= k < start.len() ==> (#[trigger] self.caches@[k])@ == start[k],
                        self.membership == old(self).membership,
                        self.running == old(self).running,
                        self.last_refresh == old(self).last_refresh,
                        self.listing_failed == old(self).listing_failed,
                    decreases self.caches@.len() - i,
                {
                    assert(self.caches@[i as int]@ == start[i as int]);
                    if let Side::Wsl(_) = self.caches[i].side {
                        self.caches[i].inventory = None;
                    }
                    assert(self.caches@[i as int]@ =~= unlisted(start)[i as int]);
                    i += 1;
                }
                assert(states(self.caches@) =~= unlisted(start));
                let novel = !self.listing_failed;
                self.listing_failed = true;
                novel
            },
        }
    }

    /// Keeps the endpoint set in step with which distros are running, and
    /// answers whether to list them now, and whether to say that the last
    /// listing failed.  A machine with nothing registered
    /// has nothing to start, so it never pays for the listing at all.
    pub fn refresh_running(
        &mut self,
        landed: Landed<Option<Vec<String>>>,
        any_registered: bool,
        now: u64,
    ) -> (r: Refresh)
        ensures
            r.start == (any_registered && lists_now(
                old(self).running && landed is Waiting,
                old(self).last_refresh,
                now,
            )),
            ({
                let settled = !old(self).running || !(landed is Waiting);
                let due = match old(self).last_refresh {
                    Some(at) => now as int - at as int >= DISTRO_REFRESH,
                    None => true,
                };
                &&& r.start == (settled && due && any_registered)
                &&& final(self).running == (r.start || (old(self).running && !settled))
                &&& final(self).last_refresh == (if settled && due {
                    Some(now)
                } else {
                    old(self).last_refresh
                })
            }),
            ({
                let answer = match landed {
                    Landed::Value(listing) => listing,
                    _ => None,
                };
                if old(self).running && !(landed is Waiting) {
                    &&& r.failure_is_new == (answer is None && !old(self).listing_failed)
                    &&& final(self).listing_failed == (answer is None)
                    &&& match answer {
                        Some(running) => {
                            &&& states(final(self).caches@) == followed(
                                states(old(self).caches@),
                                texts(running@),
                                now,
                            )
                            &&& final(self).membership == (if set_changes(
                                states(old(self).caches@),
                                texts(running@),
                                now,
                            ) {
                                bumped(old(self).membership)
                            } else {
                                old(self).membership
                            })
                        },
                        None => {
                            &&& states(final(self).caches@) == unlisted(states(old(self).caches@))
                            &&& final(self).membership == old(self).membership
                        },
                    }
                } else {
                    &&& !r.failure_is_new
                    &&& final(self).listing_failed == old(self).listing_failed
                    &&& final(self).caches == old(self).caches
                    &&& final(self).membership == old(self).membership
                }
            }),
    {
        let mut failure_is_new = false;
        if self.running {
            match landed {
                Landed::Waiting => return Refresh { start: false, failure_is_new },
                Landed::Value(listing) => {
                    failure_is_new = self.adopt_listing(listing, now);
                    self.running = false;
                },
                Landed::Panicked => {
                    failure_is_new = self.adopt_listing(None, now);
                    self.running = false;
                },
            }
        }
        let due = match self.last_refresh {
            Some(at) => at <= now && now - at >= DISTRO_REFRESH,
            None => true,
        };
        if !due {
            return Refresh { start: false, failure_is_new };
        }
        self.last_refresh = Some(now);
        if !any_registered {
            return Refresh { start: false, failure_is_new };
        }
        self.running = true;
        Refresh { start: true, failure_is_new }
    }
}

/// A membership step is seen whatever the endpoints that left had counted,
/// short of the scale itself: the number for the set moves.
pub proof fn a_set_change_is_always_seen(
    membership: u64,
    before: Seq<EndpointState>,
    after: Seq<EndpointState>,
)
    requires
        total(after) <= total(before),
        total(before) - total(after) < MEMBERSHIP_SCALE,
    ensures
        set_generation(bumped(membership), after) != set_generation(membership, before),
{
    let m = counts();
    let s = MEMBERSHIP_SCALE as int;
    let x = membership as int * s + total(before) as int;
    let d = s - (total(before) - total(after));
    let next = bumped(membership) as int * s + total(after) as int;
    assert(membership as int * s >= 0) by (nonlinear_arith)
        requires
            s >= 0,
    ;
    if membership == u64::MAX {
        assert(membership as int * s == m * s - s) by (nonlinear_arith)
            requires
                membership as int == m - 1,
        ;
        assert(next + m * s == x + d);
        lemma_mod_multiples_vanish(s, next, m);
    } else {
        assert((membership as int + 1) * s == membership as int * s + s) by (nonlinear_arith);
        assert(next == x + d);
    }
    // The two numbers differ by `d`, which is no multiple of the counts.
    lemma_fundamental_div_mod(x, m);
    lemma_fundamental_div_mod(x + d, m);
    if (x + d) % m == x % m {
        let a = (x + d) / m;
        let b = x / m;
        assert(m * a - m * b == d);
        assert(m * (a - b) == m * a - m * b) by (nonlinear_arith);
        assert(0 < d < m);
        assert(false) by (nonlinear_arith)
            requires
                m * (a - b) == d,
                0 < d < m,
        ;
    }
}

/// The native endpoint stays, whatever runs.
pub proof fn the_native_side_is_permanent(list: Seq<EndpointState>, running: Seq<Seq<char>>, now: u64)
    requires
        has_side(list, SideView::Native),
    ensures
        has_side(followed(list, running, now), SideView::Native),
{
    let kept = staying(list, running);
    let i = choose|i: int| 0 <= i < list.len() && (#[trigger] list[i]).side == SideView::Native;
    let keep = |s: EndpointState| stays(s.side, running);
    broadcast use vstd::seq_lib::group_filter_ensures;

    assert(keep(list[i]));
    assert(kept.contains(list[i])) by {
        assert(list.filter(keep).contains(list[i]));
    }
    let k = choose|k: int| 0 <= k < kept.len() && kept[k] == list[i];
    joined_keeps(kept, running, now, k);
    assert(followed(list, running, now)[k].side == SideView::Native);
}

proof fn joined_keeps(list: Seq<EndpointState>, running: Seq<Seq<char>>, now: u64, k: int)
    requires
        0 <= k < list.len(),
    ensures
        list.len() <= joined_by(list, running, now).len(),
        joined_by(list, running, now)[k] == list[k],
    decreases running.len(),
{
    if running.len() > 0 {
        joined_keeps(list, running.drop_last(), now, k);
    }
}

/// After an answered listing every running distro has an endpoint, and every
/// endpoint is the native one or a running distro's.
pub proof fn endpoints_follow_the_running_distros(list: Seq<EndpointState>, running: Seq<Seq<char>>, now: u64)
    ensures
        forall|d: int| 0 <= d < running.len() ==> has_side(
            followed(list, running, now),
            SideView::Wsl(#[trigger] running[d]),
        ),
        forall|i: int|
            0 <= i < followed(list, running, now).len() ==> stays(
                (#[trigger] followed(list, running, now)[i]).side,
                running,
            ),
{
    let kept = staying(list, running);
    let keep = |s: EndpointState| stays(s.side, running);
    broadcast use vstd::seq_lib::group_filter_ensures;

    assert forall|i: int| 0 <= i < kept.len() implies stays((#[trigger] kept[i]).side, running) by {
        assert(keep(list.filter(keep)[i]));
    }
    assert(running =~= running.take(running.len() as int));
    joined_sides(kept, running, running, now);
}

proof fn joined_sides(list: Seq<EndpointState>, part: Seq<Seq<char>>, running: Seq<Seq<char>>, now: u64)
    requires
        forall|i: int| 0 <= i < list.len() ==> stays((#[trigger] list[i]).side, running),
        part.len() <= running.len(),
        part == running.take(part.len() as int),
    ensures
        forall|d: int| 0 <= d < part.len() ==> has_side(joined_by(list, part, now), SideView::Wsl(#[trigger] part[d])),
        forall|i: int|
            0 <= i < joined_by(list, part, now).len() ==> stays((#[trigger] joined_by(list, part, now)[i]).side, running),
    decreases part.len(),
{
    if part.len() > 0 {
        let front = part.drop_last();
        assert(front =~= running.take(front.len() as int));
        joined_sides(list, front, running, now);
        let before = joined_by(list, front, now);
        let after = joined_by(list, part, now);
        let side = SideView::Wsl(part.last());
        assert(running.contains(part.last())) by {
            assert(running[part.len() - 1] == part.last());
        }
        assert forall|d: int| 0 <= d < part.len() implies has_side(after, SideView::Wsl(#[trigger] part[d])) by {
            if d < front.len() {
                assert(front[d] == part[d]);
                let k = choose|k: int| 0 <= k < before.len() && (#[trigger] before[k]).side == SideView::Wsl(part[d]);
                assert(after[k].side == SideView::Wsl(part[d]));
            } else if has_side(before, side) {
                assert(after == before);
            } else {
                assert(after[before.len() as int].side == side);
            }
        }
        assert forall|i: int| 0 <= i < after.len() implies stays((#[trigger] after[i]).side, running) by {
            if i < before.len() {
                assert(after[i] == before[i]);
            }
        }
    } else {
        assert(joined_by(list, part, now) == list);
    }
}

} // verus!

//! Bookkeeping for terminals opened on a worker.
//!
//! A session's record exists from the frame that asked for it, but its
//! terminal arrives some frames later. This holds the opens in between, and
//! the replies parked until a caller's session is live: a client that creates
//! a session in order to write to it would otherwise race its own terminal.
use std::collections::HashMap;

use vstd::prelude::*;
#[allow(unused_imports)]
use vstd::std_specs::iter::IteratorSpec;

use crate::in_flight::{answer_each, Answer};
#[allow(unused_imports)]
use crate::in_flight::each_answered;
#[allow(unused_imports)]
use crate::ipc::protocol::answer_view;
use crate::ipc::protocol::IpcResult;

verus! {

broadcast use vstd::std_specs::hash::group_hash_axioms;

/// What an open reports when its worker went away without a word.
pub const WORKER_STOPPED: &'static str = "the session's PTY worker stopped";

/// How far an open got. `A` is what a session needs to be live.
pub enum Open<A> {
    Waiting,
    Opened(A),
    Refused(String),
    /// The worker went away without a word.
    Stopped,
}

/// An open under way.
pub struct Pending<A> {
    pub open: Open<A>,
    /// The replies parked on it, each named by a number.
    pub waiters: Vec<u64>,
}

/// An open that resolved, with the replies that were parked on it.
pub enum Finished<A> {
    Opened(u64, A, Vec<u64>),
    Failed(u64, String, Vec<u64>),
}

/// What became of an open.
pub enum Resolved<A> {
    Opened(u64, A, Seq<u64>),
    Failed(u64, Seq<char>, Seq<u64>),
}

impl<A> Resolved<A> {
    /// The session that was opened for.
    pub open spec fn id(self) -> u64 {
        match self {
            Resolved::Opened(id, _, _) => id,
            Resolved::Failed(id, _, _) => id,
        }
    }

    /// The replies that were parked on it.
    pub open spec fn waiters(self) -> Seq<u64> {
        match self {
            Resolved::Opened(_, _, waiters) => waiters,
            Resolved::Failed(_, _, waiters) => waiters,
        }
    }
}

impl<A> Finished<A> {
    pub open spec fn view(&self) -> Resolved<A> {
        match *self {
            Finished::Opened(id, opened, waiters) => Resolved::Opened(id, opened, waiters@),
            Finished::Failed(id, error, waiters) => Resolved::Failed(id, error@, waiters@),
        }
    }
}

/// How a session's open is handed over; nothing while it is waited for.
pub open spec fn resolution<A>(id: u64, pending: Pending<A>) -> Option<Resolved<A>> {
    match pending.open {
        Open::Waiting => None,
        Open::Opened(opened) => Some(Resolved::Opened(id, opened, pending.waiters@)),
        Open::Refused(error) => Some(Resolved::Failed(id, error@, pending.waiters@)),
        Open::Stopped => Some(Resolved::Failed(id, WORKER_STOPPED@, pending.waiters@)),
    }
}

/// Whether a session has an open that resolved.
pub open spec fn is_resolved<A>(pending: Map<u64, Pending<A>>, id: u64) -> bool {
    pending.contains_key(id) && !(pending[id].open is Waiting)
}

/// The opens still waited for.
pub open spec fn unresolved<A>(pending: Map<u64, Pending<A>>) -> Map<u64, Pending<A>> {
    Map::new(
        |id: u64| pending.contains_key(id) && pending[id].open is Waiting,
        |id: u64| pending[id],
    )
}

/// Whether `finished` are the opens that resolved, each once, in some order.
pub open spec fn hands_over<A>(
    finished: Seq<Resolved<A>>,
    pending: Map<u64, Pending<A>>,
) -> bool {
    &&& forall|i: int|
        #![trigger finished[i]]
        0 <= i < finished.len() ==> is_resolved(pending, finished[i].id()) && resolution(
            finished[i].id(),
            pending[finished[i].id()],
        ) == Some(finished[i])
    &&& forall|i: int, j: int|
        #![trigger finished[i], finished[j]]
        0 <= i < j < finished.len() ==> finished[i].id() != finished[j].id()
    &&& forall|id: u64| #[trigger] is_resolved(pending, id) ==> names(finished, id)
}

/// Whether one of `finished` is a session's.
pub open spec fn names<A>(finished: Seq<Resolved<A>>, id: u64) -> bool {
    exists|i: int| 0 <= i < finished.len() && (#[trigger] finished[i]).id() == id
}

/// Whether `finished` are the opens that resolved among those of `seen`.
spec fn taken_so_far<A>(
    finished: Seq<Resolved<A>>,
    pending: Map<u64, Pending<A>>,
    seen: Seq<u64>,
) -> bool {
    &&& forall|i: int|
        #![trigger finished[i]]
        0 <= i < finished.len() ==> is_resolved(pending, finished[i].id()) && resolution(
            finished[i].id(),
            pending[finished[i].id()],
        ) == Some(finished[i]) && seen.contains(finished[i].id())
    &&& forall|i: int, j: int|
        #![trigger finished[i], finished[j]]
        0 <= i < j < finished.len() ==> finished[i].id() != finished[j].id()
    &&& forall|id: u64| #[trigger]
        is_resolved(pending, id) && seen.contains(id) ==> names(finished, id)
}

proof fn push_contains(seen: Seq<u64>, last: u64, id: u64)
    ensures
        seen.push(last).contains(id) == (seen.contains(id) || id == last),
{
    if seen.contains(id) {
        let k = choose|k: int| 0 <= k < seen.len() && seen[k] == id;
        assert(seen.push(last)[k] == id);
    }
    if id == last {
        assert(seen.push(last)[seen.len() as int] == id);
    }
    if seen.push(last).contains(id) && id != last {
        let k = choose|k: int| 0 <= k < seen.push(last).len() && seen.push(last)[k] == id;
        assert(seen[k] == id);
    }
}

proof fn one_more_is_taken<A>(
    finished: Seq<Resolved<A>>,
    pending: Map<u64, Pending<A>>,
    seen: Seq<u64>,
    one: Resolved<A>,
)
    requires
        taken_so_far(finished, pending, seen),
        !seen.contains(one.id()),
        is_resolved(pending, one.id()),
        resolution(one.id(), pending[one.id()]) == Some(one),
    ensures
        taken_so_far(finished.push(one), pending, seen.push(one.id())),
{
    let after = finished.push(one);
    assert forall|i: int| #![trigger after[i]] 0 <= i < after.len() implies seen.push(
        one.id(),
    ).contains(after[i].id()) by {
        push_contains(seen, one.id(), after[i].id());
        if i < finished.len() {
            assert(after[i] == finished[i]);
        }
    }
    assert forall|id: u64| #[trigger]
        is_resolved(pending, id) && seen.push(one.id()).contains(id) implies names(after, id) by {
        push_contains(seen, one.id(), id);
        if seen.contains(id) {
            assert(names(finished, id));
            let k = choose|k: int| 0 <= k < finished.len() && (#[trigger] finished[k]).id() == id;
            assert(after[k] == finished[k]);
        } else {
            assert(after[finished.len() as int] == one);
        }
    }
}

proof fn one_more_waits<A>(
    finished: Seq<Resolved<A>>,
    pending: Map<u64, Pending<A>>,
    seen: Seq<u64>,
    id: u64,
)
    requires
        taken_so_far(finished, pending, seen),
        !is_resolved(pending, id),
    ensures
        taken_so_far(finished, pending, seen.push(id)),
{
    assert forall|i: int| #![trigger finished[i]] 0 <= i < finished.len() implies seen.push(
        id,
    ).contains(finished[i].id()) by {
        push_contains(seen, id, finished[i].id());
    }
    assert forall|other: u64| #[trigger]
        is_resolved(pending, other) && seen.push(id).contains(other) implies names(
        finished,
        other,
    ) by {
        push_contains(seen, id, other);
    }
}

/// What was handed over.
pub open spec fn views<A>(finished: Seq<Finished<A>>) -> Seq<Resolved<A>> {
    finished.map_values(|f: Finished<A>| f.view())
}

/// The opens under way, by session.
pub struct PendingSpawns<A> {
    pub pending: HashMap<u64, Pending<A>>,
}

impl<A> Default for PendingSpawns<A> {
    fn default() -> (r: Self)
        ensures
            r.pending@ == Map::<u64, Pending<A>>::empty(),
    {
        PendingSpawns { pending: HashMap::new() }
    }
}

impl<A> PendingSpawns<A> {
    /// Keep an open for a session. One that was under way for it is forgotten.
    pub fn start(&mut self, id: u64)
        ensures
            final(self).pending@ == old(self).pending@.insert(id, final(self).pending@[id]),
            final(self).pending@[id].open is Waiting,
            final(self).pending@[id].waiters@ == Seq::<u64>::empty(),
    {
        let ghost before = self.pending@;
        self.pending.insert(id, Pending { open: Open::Waiting, waiters: Vec::new() });
        assert(self.pending@ =~= before.insert(id, self.pending@[id]));
    }

    /// Park a reply until the session is live. Hands the reply back when
    /// nothing is opening for it.
    pub fn watch(&mut self, id: u64, waiter: u64) -> (r: Option<u64>)
        ensures
            !old(self).pending@.contains_key(id) ==> r == Some(waiter) && final(self).pending@
                == old(self).pending@,
            old(self).pending@.contains_key(id) ==> {
                &&& r is None
                &&& final(self).pending@ == old(self).pending@.insert(id, final(self).pending@[id])
                &&& final(self).pending@[id].open == old(self).pending@[id].open
                &&& final(self).pending@[id].waiters@ == old(self).pending@[id].waiters@.push(waiter)
            },
    {
        let ghost before = self.pending@;
        match self.pending.remove(&id) {
            Some(mut joined) => {
                joined.waiters.push(waiter);
                self.pending.insert(id, joined);
                assert(self.pending@ =~= before.insert(id, self.pending@[id]));
                None
            },
            None => {
                assert(self.pending@ =~= before);
                Some(waiter)
            },
        }
    }

    /// Take in what a worker said of an open.
    pub fn land(&mut self, id: u64, open: Open<A>)
        ensures
            !old(self).pending@.contains_key(id) ==> final(self).pending@ == old(self).pending@,
            old(self).pending@.contains_key(id) ==> {
                &&& final(self).pending@ == old(self).pending@.insert(id, final(self).pending@[id])
                &&& final(self).pending@[id].open == open
                &&& final(self).pending@[id].waiters == old(self).pending@[id].waiters
            },
    {
        let ghost before = self.pending@;
        match self.pending.remove(&id) {
            Some(told) => {
                self.pending.insert(id, Pending { open, waiters: told.waiters });
                assert(self.pending@ =~= before.insert(id, self.pending@[id]));
            },
            None => {
                assert(self.pending@ =~= before);
            },
        }
    }

    /// The sessions with an open, each once.
    fn ids(&self) -> (r: Vec<u64>)
        ensures
            r@.no_duplicates(),
            forall|id: u64| r@.contains(id) == #[trigger] self.pending@.contains_key(id),
    {
        let mut ids: Vec<u64> = Vec::new();
        let ghost all = self.pending.keys().remaining().unref();
        for key in keys: self.pending.keys()
            invariant
                keys.seq().unref() == all,
                ids@ == all.take(keys.index() as int),
        {
            ids.push(*key);
            assert(ids@ =~= all.take(keys.index() + 1));
        }
        proof {
            assert(ids@ =~= all);
            assert forall|id: u64| ids@.contains(id) == #[trigger] self.pending@.contains_key(
                id,
            ) by {
                assert(all.to_set().contains(id) == all.contains(id));
                assert(self.pending@.dom().contains(id) == self.pending@.contains_key(id));
            }
        }
        ids
    }

    /// Take every open that has resolved.
    pub fn take_finished(&mut self) -> (r: Vec<Finished<A>>)
        ensures
            hands_over(views(r@), old(self).pending@),
            final(self).pending@ == unresolved(old(self).pending@),
    {
        let ghost all = self.pending@;
        let ids = self.ids();
        let mut finished: Vec<Finished<A>> = Vec::new();
        let mut i: usize = 0;
        proof {
            assert(views(finished@) =~= Seq::empty());
        }
        while i < ids.len()
            invariant
                i <= ids@.len(),
                ids@.no_duplicates(),
                forall|id: u64| ids@.contains(id) == #[trigger] all.contains_key(id),
                forall|id: u64| #[trigger]
                    self.pending@.contains_key(id) == (all.contains_key(id) && !(is_resolved(
                        all,
                        id,
                    ) && ids@.take(i as int).contains(id))),
                forall|id: u64| #[trigger]
                    self.pending@.contains_key(id) ==> self.pending@[id] == all[id],
                taken_so_far(views(finished@), all, ids@.take(i as int)),
            decreases ids@.len() - i,
        {
            let id = ids[i];
            let ghost seen = ids@.take(i as int);
            let ghost now = ids@.take(i + 1);
            let ghost before = views(finished@);
            proof {
                assert(now =~= seen.push(id));
                assert(ids@.contains(id));
                assert(!seen.contains(id)) by {
                    if seen.contains(id) {
                        let k = choose|k: int| 0 <= k < seen.len() && seen[k] == id;
                        assert(ids@[k] == ids@[i as int]);
                    }
                }
                assert(all.contains_key(id));
                assert(self.pending@.contains_key(id));
                assert forall|other: u64| now.contains(other) == (seen.contains(other) || other
                    == id) by {
                    push_contains(seen, id, other);
                }
            }
            let waiting = match self.pending.get(&id) {
                Some(pending) => matches!(pending.open, Open::Waiting),
                None => true,
            };
            if !waiting {
                if let Some(taken) = self.pending.remove(&id) {
                    let ghost was = taken;
                    let one = match taken.open {
                        Open::Opened(opened) => Finished::Opened(id, opened, taken.waiters),
                        Open::Refused(error) => Finished::Failed(id, error, taken.waiters),
                        _ => Finished::Failed(id, WORKER_STOPPED.to_owned(), taken.waiters),
                    };
                    assert(Some(one.view()) == resolution(id, was));
                    finished.push(one);
                    proof {
                        assert(views(finished@) =~= before.push(one.view()));
                        one_more_is_taken(before, all, seen, one.view());
                    }
                }
            } else {
                proof {
                    one_more_waits(before, all, seen, id);
                }
            }
            i += 1;
        }
        proof {
            assert(ids@.take(i as int) =~= ids@);
            assert(self.pending@ =~= unresolved(all));
            let out = views(finished@);
            assert forall|id: u64| #[trigger] is_resolved(all, id) implies names(out, id) by {
                assert(ids@.contains(id));
            }
        }
        finished
    }

    /// Answer each of `waiters` with `reply`.
    pub fn answer(waiters: Vec<u64>, reply: IpcResult) -> (r: Vec<Answer>)
        ensures
            each_answered(r@, waiters@, answer_view(reply)),
    {
        answer_each(&waiters, &reply)
    }
}

/// An open that resolved is forgotten: nothing is left to resolve again.
pub proof fn a_resolved_open_is_forgotten<A>(pending: Map<u64, Pending<A>>, id: u64)
    ensures
        !is_resolved(unresolved(pending), id),
        hands_over(Seq::<Resolved<A>>::empty(), unresolved(pending)),
{
}

/// Taking the opens that resolved loses none: each session's is handed over
/// with the replies parked on it, or is waited for still with all of them.
pub proof fn no_parked_reply_is_lost<A>(
    pending: Map<u64, Pending<A>>,
    finished: Seq<Resolved<A>>,
    id: u64,
)
    requires
        hands_over(finished, pending),
        pending.contains_key(id),
    ensures
        is_resolved(pending, id) ==> exists|i: int|
            0 <= i < finished.len() && (#[trigger] finished[i]).id() == id && finished[i].waiters()
                == pending[id].waiters@,
        !is_resolved(pending, id) ==> unresolved(pending).contains_key(id) && unresolved(
            pending,
        )[id].waiters == pending[id].waiters && !names(finished, id),
{
    if is_resolved(pending, id) {
        assert(names(finished, id));
        let i = choose|i: int| 0 <= i < finished.len() && (#[trigger] finished[i]).id() == id;
        assert(resolution(id, pending[id]) == Some(finished[i]));
    }
}

} // verus!

//! Jobs keyed by what they work on, with replies parked until each result has
//! been applied.
//!
//! A client that asks for work to act on its outcome would race its own
//! request if it were answered the moment the job started. Every parked reply
//! is answered once, and one whose work was abandoned is answered with an
//! error.
use vstd::prelude::*;

use crate::ipc::protocol::IpcResult;
#[allow(unused_imports)]
use crate::ipc::protocol::answer_view;
use crate::jobs::Job;
#[allow(unused_imports)]
use crate::jobs::JobFailed;
#[allow(unused_imports)]
use crate::json::Tree;
use crate::text::same;

verus! {

/// The answer to a reply whose work was abandoned.
pub const ABANDONED: &'static str = "the work this request waited on was abandoned";

/// What a job can be keyed by.
pub trait WorkKey: View + Sized {
    /// Whether the two name the same work.
    fn same_work(&self, other: &Self) -> (r: bool)
        ensures
            r == (self@ == other@),
    ;
}

impl WorkKey for u64 {
    fn same_work(&self, other: &Self) -> (r: bool) {
        *self == *other
    }
}

impl WorkKey for String {
    fn same_work(&self, other: &Self) -> (r: bool) {
        same(self.as_str(), other.as_str())
    }
}

/// A job that is running, with the replies parked on it. A reply is named by a
/// number.
pub struct Running<K, T> {
    pub key: K,
    pub job: Job<T>,
    pub waiters: Vec<u64>,
}

/// A job that ended, with the replies that were parked on it.
pub struct Finished<K, T> {
    pub key: K,
    /// Nothing when the job's work unwound.
    pub outcome: Option<T>,
    pub waiters: Waiters,
}

/// Replies parked on one job.
pub struct Waiters {
    pub ids: Vec<u64>,
}

/// A reply and what it is answered with.
pub struct Answer {
    pub waiter: u64,
    pub reply: IpcResult,
}

/// A copy of an answer.
pub fn copy_reply(reply: &IpcResult) -> (r: IpcResult)
    ensures
        answer_view(r) == answer_view(*reply),
{
    match reply {
        Ok(value) => Ok(value.copy()),
        Err(error) => Err(error.clone()),
    }
}

/// Whether `answers` give each of `ids`, in order, `reply`.
pub open spec fn each_answered(
    answers: Seq<Answer>,
    ids: Seq<u64>,
    reply: Result<Tree, Seq<char>>,
) -> bool {
    &&& answers.len() == ids.len()
    &&& forall|i: int|
        0 <= i < ids.len() ==> (#[trigger] answers[i]).waiter == ids[i] && answer_view(
            answers[i].reply,
        ) == reply
}

/// Answer each of `ids` with `reply`.
pub fn answer_each(ids: &Vec<u64>, reply: &IpcResult) -> (r: Vec<Answer>)
    ensures
        each_answered(r@, ids@, answer_view(*reply)),
{
    let mut answers: Vec<Answer> = Vec::new();
    let mut i: usize = 0;
    while i < ids.len()
        invariant
            i <= ids.len(),
            each_answered(answers@, ids@.take(i as int), answer_view(*reply)),
        decreases ids.len() - i,
    {
        answers.push(Answer { waiter: ids[i], reply: copy_reply(reply) });
        i += 1;
    }
    assert(ids@.take(i as int) =~= ids@);
    answers
}

impl Waiters {
    /// Answer each reply.
    pub fn answer(self, reply: IpcResult) -> (r: Vec<Answer>)
        ensures
            each_answered(r@, self.ids@, answer_view(reply)),
    {
        answer_each(&self.ids, &reply)
    }

    /// Answer each reply that nothing else will answer.
    pub fn abandon(self) -> (r: Vec<Answer>)
        ensures
            each_answered(r@, self.ids@, Err(ABANDONED@)),
    {
        answer_each(&self.ids, &Err(ABANDONED.to_owned()))
    }
}

/// The jobs under way, in the order they started.
pub struct InFlight<K, T> {
    pub running: Vec<Running<K, T>>,
}

/// Whether a job has come to an end.
pub open spec fn has_ended<T>(job: Job<T>) -> bool {
    job.landed() is Some || job.has_failed()
}

/// What a job that ended came back with.
pub open spec fn outcome_of<T>(job: Job<T>) -> Option<T> {
    match job.landed() {
        Some(Ok(value)) => Some(value),
        _ => None,
    }
}

/// The place of the job that works on `key`.
pub open spec fn place_of<K: WorkKey, T>(running: Seq<Running<K, T>>, key: K::V) -> Option<int>
    decreases running.len(),
{
    if running.len() == 0 {
        None
    } else if place_of(running.drop_last(), key) is Some {
        place_of(running.drop_last(), key)
    } else if running.last().key@ == key {
        Some(running.len() - 1)
    } else {
        None
    }
}

/// Those of the jobs that have ended, as they are handed over.
pub open spec fn ended<K, T>(running: Seq<Running<K, T>>) -> Seq<(K, Option<T>, Seq<u64>)>
    decreases running.len(),
{
    if running.len() == 0 {
        Seq::empty()
    } else {
        let last = running.last();
        let before = ended(running.drop_last());
        if has_ended(last.job) {
            before.push((last.key, outcome_of(last.job), last.waiters@))
        } else {
            before
        }
    }
}

/// Those that are still running.
pub open spec fn unended<K, T>(running: Seq<Running<K, T>>) -> Seq<Running<K, T>> {
    running.filter(|job: Running<K, T>| !has_ended(job.job))
}

/// The jobs that were handed over, with the replies parked on each.
pub open spec fn handed<K, T>(finished: Seq<Finished<K, T>>) -> Seq<(K, Option<T>, Seq<u64>)> {
    finished.map_values(|f: Finished<K, T>| (f.key, f.outcome, f.waiters.ids@))
}

impl<K, T> Default for InFlight<K, T> {
    fn default() -> (r: Self)
        ensures
            r.running@ == Seq::<Running<K, T>>::empty(),
    {
        InFlight { running: Vec::new() }
    }
}

proof fn a_place_is_in_the_list<K: WorkKey, T>(running: Seq<Running<K, T>>, key: K::V)
    ensures
        place_of(running, key) matches Some(i) ==> 0 <= i < running.len() && running[i].key@
            == key,
        place_of(running, key) is None ==> forall|i: int|
            0 <= i < running.len() ==> (#[trigger] running[i]).key@ != key,
    decreases running.len(),
{
    if running.len() > 0 {
        a_place_is_in_the_list(running.drop_last(), key);
        assert forall|i: int|
            place_of(running, key) is None && 0 <= i < running.len() implies (
        #[trigger] running[i]).key@ != key by {
            if i < running.len() - 1 {
                assert(running.drop_last()[i] == running[i]);
            }
        }
    }
}

proof fn the_first_place_is_found<K: WorkKey, T>(running: Seq<Running<K, T>>, key: K::V, i: int)
    requires
        0 <= i < running.len(),
        running[i].key@ == key,
        forall|k: int| 0 <= k < i ==> (#[trigger] running[k]).key@ != key,
    ensures
        place_of(running, key) == Some(i),
    decreases running.len(),
{
    a_place_is_in_the_list(running.drop_last(), key);
    if i < running.len() - 1 {
        assert(running.drop_last()[i] == running[i]);
        assert forall|k: int| 0 <= k < i implies (#[trigger] running.drop_last()[k]).key@ != key by {
            assert(running[k].key@ != key);
        }
        the_first_place_is_found(running.drop_last(), key, i);
    } else {
        if place_of(running.drop_last(), key) is Some {
            let k = place_of(running.drop_last(), key)->0;
            assert(running[k].key@ != key);
        }
    }
}

impl<K: WorkKey, T> InFlight<K, T> {
    /// No work has two jobs, and none has a failure that was read already.
    pub open spec fn wf(self) -> bool {
        &&& forall|i: int, j: int|
            #![trigger self.running@[i], self.running@[j]]
            0 <= i < j < self.running@.len() ==> self.running@[i].key@ != self.running@[j].key@
        &&& forall|i: int|
            0 <= i < self.running@.len() ==> !(#[trigger] self.running@[i]).job.has_failed()
    }

    /// Where the job that works on `key` stands in the list.
    pub fn position(&self, key: &K) -> (r: Option<usize>)
        ensures
            r is Some ==> r->0 < self.running@.len(),
            place_of(self.running@, key@) == match r {
                Some(i) => Some(i as int),
                None => None,
            },
    {
        let mut i: usize = 0;
        while i < self.running.len()
            invariant
                i <= self.running.len(),
                forall|k: int| 0 <= k < i ==> (#[trigger] self.running@[k]).key@ != key@,
            decreases self.running.len() - i,
        {
            if self.running[i].key.same_work(key) {
                proof {
                    the_first_place_is_found(self.running@, key@, i as int);
                }
                return Some(i);
            }
            i += 1;
        }
        proof {
            a_place_is_in_the_list(self.running@, key@);
        }
        None
    }

    /// Start the job `spawn` makes for `key`, unless one is running for it
    /// already, which a second request joins instead of doubling the work. Says
    /// whether `spawn` ran.
    pub fn start<F: FnOnce() -> Job<T>>(&mut self, key: K, spawn: F) -> (r: bool)
        requires
            old(self).wf(),
            place_of(old(self).running@, key@) is None ==> spawn.requires(()),
            forall|job: Job<T>| #[trigger] spawn.ensures((), job) ==> !job.has_failed(),
        ensures
            final(self).wf(),
            r == (place_of(old(self).running@, key@) is None),
            !r ==> final(self).running@ == old(self).running@,
            r ==> final(self).running@.len() == old(self).running@.len() + 1 && final(self).running@.drop_last() == old(self).running@,
            r ==> final(self).running@.last().key == key && spawn.ensures(
                (),
                final(self).running@.last().job,
            ) && final(self).running@.last().waiters@ == Seq::<u64>::empty(),
    {
        if self.position(&key).is_some() {
            return false;
        }
        proof {
            a_place_is_in_the_list(self.running@, key@);
        }
        let ghost before = self.running@;
        let job = spawn();
        self.running.push(Running { key, job, waiters: Vec::new() });
        assert(self.running@.drop_last() =~= before);
        true
    }

    /// Park a reply until the job for `key` has ended. Hands the reply back
    /// when no job works on it.
    pub fn watch(&mut self, key: &K, waiter: u64) -> (r: Option<u64>)
        requires
            old(self).wf(),
        ensures
            final(self).wf(),
            place_of(old(self).running@, key@) is None ==> r == Some(waiter) && final(self).running@ == old(self).running@,
            place_of(old(self).running@, key@) matches Some(i) ==> {
                &&& r is None
                &&& final(self).running@.len() == old(self).running@.len()
                &&& forall|k: int|
                    0 <= k < old(self).running@.len() && k != i ==> #[trigger] final(self).running@[k]
                        == old(self).running@[k]
                &&& final(self).running@[i].key == old(self).running@[i].key
                &&& final(self).running@[i].job == old(self).running@[i].job
                &&& final(self).running@[i].waiters@ == old(self).running@[i].waiters@.push(waiter)
            },
    {
        match self.position(key) {
            Some(i) => {
                let mut joined = self.running.remove(i);
                joined.waiters.push(waiter);
                self.running.insert(i, joined);
                None
            },
            None => Some(waiter),
        }
    }

    /// Tell the job for `key` what became of it.
    pub fn land(&mut self, key: &K, outcome: Result<T, JobFailed>)
        requires
            old(self).wf(),
        ensures
            final(self).wf(),
            place_of(old(self).running@, key@) is None ==> final(self).running@ == old(self).running@,
            place_of(old(self).running@, key@) matches Some(i) ==> {
                &&& final(self).running@.len() == old(self).running@.len()
                &&& forall|k: int|
                    0 <= k < old(self).running@.len() && k != i ==> #[trigger] final(self).running@[k]
                        == old(self).running@[k]
                &&& final(self).running@[i].key == old(self).running@[i].key
                &&& final(self).running@[i].waiters == old(self).running@[i].waiters
                &&& final(self).running@[i].job.landed() == match old(self).running@[i].job.landed() {
                    None => Some(outcome),
                    Some(first) => Some(first),
                }
            },
    {
        if let Some(i) = self.position(key) {
            let mut told = self.running.remove(i);
            told.job.land(outcome);
            self.running.insert(i, told);
        }
    }

    /// Take every job that has ended.
    pub fn take_finished(&mut self) -> (r: Vec<Finished<K, T>>)
        requires
            old(self).wf(),
        ensures
            final(self).wf(),
            handed(r@) == ended(old(self).running@),
            final(self).running@ == unended(old(self).running@),
    {
        let ghost all = self.running@;
        let ghost keep = |job: Running<K, T>| !has_ended(job.job);
        let mut rest: Vec<Running<K, T>> = Vec::new();
        let mut finished: Vec<Finished<K, T>> = Vec::new();
        let ghost mut done: int = 0;
        proof {
            reveal(Seq::filter);
            assert(all.skip(0) =~= all);
            assert(all.take(0).filter(keep) =~= Seq::empty());
            assert(handed(finished@) =~= ended(all.take(0)));
        }
        while self.running.len() > 0
            invariant
                0 <= done <= all.len(),
                self.running@ == all.skip(done),
                keep == (|job: Running<K, T>| !has_ended(job.job)),
                rest@ == all.take(done).filter(keep),
                handed(finished@) == ended(all.take(done)),
                forall|i: int| 0 <= i < all.len() ==> !(#[trigger] all[i]).job.has_failed(),
            decreases self.running.len(),
        {
            let ghost before = handed(finished@);
            let mut taken = self.running.remove(0);
            let ghost was = taken;
            proof {
                reveal(Seq::filter);
                assert(was == all[done]);
                assert(all.take(done + 1).drop_last() =~= all.take(done));
                assert(all.take(done + 1).last() == was);
                assert(all.skip(done).remove(0) =~= all.skip(done + 1));
            }
            match taken.job.poll() {
                Some(value) => {
                    finished.push(
                        Finished {
                            key: taken.key,
                            outcome: Some(value),
                            waiters: Waiters { ids: taken.waiters },
                        },
                    );
                    assert(handed(finished@) =~= before.push(
                        (was.key, outcome_of(was.job), was.waiters@),
                    ));
                },
                None => {
                    if taken.job.failed() {
                        finished.push(
                            Finished {
                                key: taken.key,
                                outcome: None,
                                waiters: Waiters { ids: taken.waiters },
                            },
                        );
                        assert(handed(finished@) =~= before.push(
                            (was.key, outcome_of(was.job), was.waiters@),
                        ));
                    } else {
                        proof {
                            taken.job.same_when_told_alike(was.job);
                        }
                        rest.push(taken);
                    }
                },
            }
            proof {
                done = done + 1;
            }
        }
        self.running = rest;
        proof {
            assert(all.take(done) =~= all);
            what_is_left_is_distinct(all);
            assert(self.running@ == unended(all));
            assert forall|i: int, j: int|
                #![trigger self.running@[i], self.running@[j]]
                0 <= i < j < self.running@.len() implies self.running@[i].key@
                != self.running@[j].key@ by {
                assert(unended(all)[i].key@ != unended(all)[j].key@);
            }
            assert forall|i: int| 0 <= i < self.running@.len() implies !(
            #[trigger] self.running@[i]).job.has_failed() by {
                assert(!unended(all)[i].job.has_failed());
            }
        }
        finished
    }

    /// Every reply still parked, answered as abandoned: what becomes of them
    /// when the jobs are let go of.
    pub fn abandon(self) -> (r: Vec<Answer>)
        ensures
            each_answered(r@, parked(self.running@), Err(ABANDONED@)),
    {
        let mut ids: Vec<u64> = Vec::new();
        let mut i: usize = 0;
        while i < self.running.len()
            invariant
                i <= self.running.len(),
                ids@ == parked(self.running@.take(i as int)),
            decreases self.running.len() - i,
        {
            let mut k: usize = 0;
            let ghost before = ids@;
            while k < self.running[i].waiters.len()
                invariant
                    i < self.running.len(),
                    k <= self.running@[i as int].waiters@.len(),
                    ids@ == before + self.running@[i as int].waiters@.take(k as int),
                decreases self.running@[i as int].waiters@.len() - k,
            {
                ids.push(self.running[i].waiters[k]);
                k += 1;
                assert(ids@ =~= before + self.running@[i as int].waiters@.take(k as int));
            }
            proof {
                assert(self.running@[i as int].waiters@.take(k as int)
                    =~= self.running@[i as int].waiters@);
                assert(self.running@.take(i + 1).drop_last() =~= self.running@.take(i as int));
            }
            i += 1;
        }
        assert(self.running@.take(i as int) =~= self.running@);
        answer_each(&ids, &Err(ABANDONED.to_owned()))
    }
}

proof fn what_is_left_is_distinct<K: WorkKey, T>(all: Seq<Running<K, T>>)
    requires
        forall|i: int, j: int|
            #![trigger all[i], all[j]]
            0 <= i < j < all.len() ==> all[i].key@ != all[j].key@,
        forall|i: int| 0 <= i < all.len() ==> !(#[trigger] all[i]).job.has_failed(),
    ensures
        forall|i: int, j: int|
            #![trigger unended(all)[i], unended(all)[j]]
            0 <= i < j < unended(all).len() ==> unended(all)[i].key@ != unended(all)[j].key@,
        forall|i: int|
            0 <= i < unended(all).len() ==> !(#[trigger] unended(all)[i]).job.has_failed(),
        forall|i: int|
            0 <= i < unended(all).len() ==> exists|k: int|
                0 <= k < all.len() && #[trigger] all[k] == #[trigger] unended(all)[i],
    decreases all.len(),
{
    reveal(Seq::filter);
    if all.len() > 0 {
        let front = all.drop_last();
        assert forall|i: int, j: int|
            #![trigger front[i], front[j]]
            0 <= i < j < front.len() implies front[i].key@ != front[j].key@ by {
            assert(all[i] == front[i] && all[j] == front[j]);
        }
        assert forall|i: int| 0 <= i < front.len() implies !(
        #[trigger] front[i]).job.has_failed() by {
            assert(all[i] == front[i]);
        }
        what_is_left_is_distinct(front);
        let left = unended(all);
        assert forall|i: int| 0 <= i < left.len() implies exists|k: int|
            0 <= k < all.len() && #[trigger] all[k] == #[trigger] left[i] by {
            if i < unended(front).len() {
                assert(left[i] == unended(front)[i]);
                let k = choose|k: int|
                    0 <= k < front.len() && #[trigger] front[k] == unended(front)[i];
                assert(all[k] == left[i]);
            } else {
                assert(all[all.len() - 1] == left[i]);
            }
        }
        assert forall|i: int, j: int|
            #![trigger left[i], left[j]]
            0 <= i < j < left.len() implies left[i].key@ != left[j].key@ by {
            assert(left[i] == unended(front)[i]);
            if j < unended(front).len() {
                assert(left[j] == unended(front)[j]);
            } else {
                assert(left[j] == all.last());
                let k = choose|k: int|
                    0 <= k < front.len() && #[trigger] front[k] == unended(front)[i];
                assert(all[k] == left[i]);
                assert(all[all.len() - 1] == left[j]);
            }
        }
    }
}

/// Every reply parked on the jobs, in order.
pub open spec fn parked<K, T>(running: Seq<Running<K, T>>) -> Seq<u64>
    decreases running.len(),
{
    if running.len() == 0 {
        Seq::empty()
    } else {
        parked(running.drop_last()) + running.last().waiters@
    }
}

/// Every reply handed over with the jobs it was parked on.
pub open spec fn carried<K, T>(finished: Seq<(K, Option<T>, Seq<u64>)>) -> Seq<u64>
    decreases finished.len(),
{
    if finished.len() == 0 {
        Seq::empty()
    } else {
        carried(finished.drop_last()) + finished.last().2
    }
}

/// Taking the jobs that ended neither loses a reply nor hands one over twice:
/// each is parked still or was carried out, as often as it was parked before.
pub proof fn no_reply_is_lost<K, T>(running: Seq<Running<K, T>>)
    ensures
        parked(running).to_multiset() =~= parked(unended(running)).to_multiset().add(
            carried(ended(running)).to_multiset(),
        ),
    decreases running.len(),
{
    broadcast use vstd::seq_lib::group_to_multiset_ensures;
    reveal(Seq::filter);
    if running.len() == 0 {
        assert(parked(running).to_multiset() =~= parked(unended(running)).to_multiset().add(
            carried(ended(running)).to_multiset(),
        ));
    } else {
        let front = running.drop_last();
        let last = running.last();
        no_reply_is_lost(front);
        vstd::seq_lib::lemma_multiset_commutative(parked(front), last.waiters@);
        if has_ended(last.job) {
            let out = ended(running);
            assert(out.drop_last() =~= ended(front));
            vstd::seq_lib::lemma_multiset_commutative(carried(ended(front)), last.waiters@);
        } else {
            let rest = unended(running);
            assert(rest =~= unended(front).push(last));
            assert(rest.drop_last() =~= unended(front));
            vstd::seq_lib::lemma_multiset_commutative(parked(unended(front)), last.waiters@);
        }
    }
}

} // verus!

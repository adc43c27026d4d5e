//! The rules of the pool that runs every piece of work the screen must not
//! wait for.
//!
//! A pool has a fixed number of workers and two queues: work that something on
//! screen is waiting for, and housekeeping. Neither class may take every
//! worker, so a click never queues behind a pool full of housekeeping and a
//! burst of clicks never stops a refresh.
use std::collections::VecDeque;

use vstd::prelude::*;

verus! {

/// Whether anything on screen is waiting for the job.
#[derive(Clone, Copy, Debug, PartialEq, Eq, Structural)]
pub enum Priority {
    /// A pending state is showing until this lands.
    Interactive,
    /// Housekeeping nobody is looking at.
    Background,
}

/// Which class a running task counts against.
#[derive(Clone, Copy, Debug, PartialEq, Eq, Structural)]
pub enum Slot {
    Interactive,
    Background,
}

/// How long to wait before asking again whether a child has exited, in
/// milliseconds.
pub const CHILD_POLL: u64 = 25;

/// What a cancelled job reports.
pub const JOB_CANCELLED: &'static str = "job cancelled";

/// The queues of a pool, and how many tasks of each class are running. A task
/// is named by a number.
pub struct State {
    pub interactive: VecDeque<u64>,
    pub background: VecDeque<u64>,
    pub interactive_running: usize,
    pub background_running: usize,
}

impl Default for State {
    fn default() -> (r: Self)
        ensures
            r@ == (Queues {
                interactive: Seq::empty(),
                background: Seq::empty(),
                interactive_running: 0,
                background_running: 0,
            }),
    {
        State {
            interactive: VecDeque::new(),
            background: VecDeque::new(),
            interactive_running: 0,
            background_running: 0,
        }
    }
}

/// What the queues hold.
#[verifier::ext_equal]
pub struct Queues {
    pub interactive: Seq<u64>,
    pub background: Seq<u64>,
    pub interactive_running: nat,
    pub background_running: nat,
}

impl View for State {
    type V = Queues;

    open spec fn view(&self) -> Queues {
        Queues {
            interactive: self.interactive@,
            background: self.background@,
            interactive_running: self.interactive_running as nat,
            background_running: self.background_running as nat,
        }
    }
}

impl Queues {
    /// Whether a class may have another task running: one worker always stays
    /// free of it.
    pub open spec fn admits(self, slot: Slot, workers: nat) -> bool {
        match slot {
            Slot::Interactive => self.interactive_running + 1 < workers,
            Slot::Background => self.background_running + 1 < workers,
        }
    }

    /// The task a free worker runs next, and the class it counts against. The
    /// interactive queue has first refusal.
    pub open spec fn next(self, workers: nat) -> Option<(u64, Slot)> {
        if self.admits(Slot::Interactive, workers) && self.interactive.len() > 0 {
            Some((self.interactive[0], Slot::Interactive))
        } else if self.admits(Slot::Background, workers) && self.background.len() > 0 {
            Some((self.background[0], Slot::Background))
        } else {
            None
        }
    }

    /// The queues once that task runs.
    pub open spec fn taken(self, workers: nat) -> Queues {
        match self.next(workers) {
            Some((task, Slot::Interactive)) => Queues {
                interactive: self.interactive.skip(1),
                interactive_running: self.interactive_running + 1,
                ..self
            },
            Some((task, Slot::Background)) => Queues {
                background: self.background.skip(1),
                background_running: self.background_running + 1,
                ..self
            },
            None => self,
        }
    }

    /// The queues once a task of the class has ended.
    pub open spec fn released(self, slot: Slot) -> Queues {
        match slot {
            Slot::Interactive => Queues {
                interactive_running: (self.interactive_running - 1) as nat,
                ..self
            },
            Slot::Background => Queues {
                background_running: (self.background_running - 1) as nat,
                ..self
            },
        }
    }

    /// The queues once a task was handed in.
    pub open spec fn submitted(self, priority: Priority, task: u64) -> Queues {
        match priority {
            Priority::Interactive => Queues { interactive: self.interactive.push(task), ..self },
            Priority::Background => Queues { background: self.background.push(task), ..self },
        }
    }

    /// Neither class has taken every worker.
    pub open spec fn within(self, workers: nat) -> bool {
        &&& self.interactive_running < workers
        &&& self.background_running < workers
    }
}

/// The next task a worker may run, and the class it counts against.
pub fn take(state: &mut State, workers: usize) -> (r: Option<(u64, Slot)>)
    requires
        old(state).interactive_running < usize::MAX,
        old(state).background_running < usize::MAX,
    ensures
        r == old(state)@.next(workers as nat),
        final(state)@ == old(state)@.taken(workers as nat),
{
    let ghost before = state@;
    if state.interactive_running + 1 < workers {
        if let Some(task) = state.interactive.pop_front() {
            state.interactive_running += 1;
            assert(state@ =~= before.taken(workers as nat));
            return Some((task, Slot::Interactive));
        }
    }
    assert(state@ =~= before);
    if state.background_running + 1 < workers {
        if let Some(task) = state.background.pop_front() {
            state.background_running += 1;
            assert(state@ =~= before.taken(workers as nat));
            return Some((task, Slot::Background));
        }
    }
    assert(state@ =~= before);
    None
}

/// Free the place of a task that has ended, whether it returned or unwound.
pub fn release(state: &mut State, slot: Slot)
    requires
        slot is Interactive ==> old(state).interactive_running > 0,
        slot is Background ==> old(state).background_running > 0,
    ensures
        final(state)@ == old(state)@.released(slot),
{
    match slot {
        Slot::Interactive => {
            state.interactive_running -= 1;
        },
        Slot::Background => {
            state.background_running -= 1;
        },
    }
}

/// Queue a task behind the others of its class.
pub fn submit(state: &mut State, priority: Priority, task: u64)
    ensures
        final(state)@ == old(state)@.submitted(priority, task),
{
    match priority {
        Priority::Interactive => state.interactive.push_back(task),
        Priority::Background => state.background.push_back(task),
    }
}

/// How many workers a pool asked for `workers` has.
pub open spec fn workers_for(workers: usize) -> usize {
    if workers < 2 {
        2
    } else {
        workers
    }
}

/// How many workers the process-wide pool has.
pub open spec fn pool_for(parallelism: Option<usize>) -> usize {
    match parallelism {
        None => 4,
        Some(n) => if n < 4 {
            4
        } else if n > 8 {
            8
        } else {
            n
        },
    }
}

/// How many workers a pool asked for `workers` has: at least two, since each
/// class leaves one to the other.
pub fn worker_count(workers: usize) -> (r: usize)
    ensures
        r == workers_for(workers),
        r == if workers < 2 {
            2
        } else {
            workers
        },
{
    if workers < 2 {
        2
    } else {
        workers
    }
}

/// How many workers the process-wide pool has on a machine that runs
/// `parallelism` threads at once: the work waits more than it computes, so the
/// number stays within a narrow range.
pub fn pool_size(parallelism: Option<usize>) -> (r: usize)
    ensures
        r == pool_for(parallelism),
        r == match parallelism {
            None => 4usize,
            Some(n) => if n < 4 {
                4
            } else if n > 8 {
                8
            } else {
                n
            },
        },
{
    match parallelism {
        None => 4,
        Some(n) => if n < 4 {
            4
        } else if n > 8 {
            8
        } else {
            n
        },
    }
}

/// What a worker does with a task it took.
#[derive(Clone, Copy, Debug, PartialEq, Eq, Structural)]
pub enum Turn {
    /// Nobody wants it any more.
    Skip,
    /// Run it, at a lower priority when nobody is looking.
    Run { lowered: bool },
}

/// What a worker does with a task.
pub open spec fn turn_of(cancelled: bool, slot: Slot) -> Turn {
    if cancelled {
        Turn::Skip
    } else {
        Turn::Run { lowered: slot is Background }
    }
}

/// What a worker does with a task it took.
pub fn turn(cancelled: bool, slot: Slot) -> (r: Turn)
    ensures
        r == turn_of(cancelled, slot),
        r == if cancelled {
            Turn::Skip
        } else {
            Turn::Run { lowered: slot is Background }
        },
{
    if cancelled {
        Turn::Skip
    } else {
        Turn::Run { lowered: matches!(slot, Slot::Background) }
    }
}

/// What asking after a child gave.
#[derive(Clone, Copy, Debug, PartialEq, Eq, Structural)]
pub enum Asked {
    /// Somebody took the child away.
    Gone,
    Running,
    Exited,
    /// Asking failed.
    Broken,
}

/// What to do about a child.
#[derive(Clone, Copy, Debug, PartialEq, Eq, Structural)]
pub enum ChildStep {
    /// Report the job as cancelled.
    Cancelled,
    /// Collect the child, then report the job as cancelled.
    ReapCancelled,
    /// Collect what the child wrote.
    Collect,
    /// Ask again in this many milliseconds.
    Wait(u64),
    /// Let go of the child and report the failure.
    Fail,
}

/// What to do about a child.
pub open spec fn step_of(asked: Asked, cancelled: bool) -> ChildStep {
    match asked {
        Asked::Gone => ChildStep::Cancelled,
        Asked::Running => ChildStep::Wait(CHILD_POLL),
        Asked::Exited => if cancelled {
            ChildStep::ReapCancelled
        } else {
            ChildStep::Collect
        },
        Asked::Broken => ChildStep::Fail,
    }
}

/// What to do about a child that was asked after. An exit may be the kill
/// landing, so a cancelled job reports that and not what the child left.
pub fn child_step(asked: Asked, cancelled: bool) -> (r: ChildStep)
    ensures
        r == step_of(asked, cancelled),
        r == match asked {
            Asked::Gone => ChildStep::Cancelled,
            Asked::Running => ChildStep::Wait(CHILD_POLL),
            Asked::Exited => if cancelled {
                ChildStep::ReapCancelled
            } else {
                ChildStep::Collect
            },
            Asked::Broken => ChildStep::Fail,
        },
{
    match asked {
        Asked::Gone => ChildStep::Cancelled,
        Asked::Running => ChildStep::Wait(CHILD_POLL),
        Asked::Exited => if cancelled {
            ChildStep::ReapCancelled
        } else {
            ChildStep::Collect
        },
        Asked::Broken => ChildStep::Fail,
    }
}

/// A job's work unwound instead of returning.
pub struct JobFailed;

/// A submitted job. What became of it is handed over with [`Job::land`] and
/// read once with [`Job::poll`].
pub struct Job<T> {
    landed: Option<Result<T, JobFailed>>,
    failed: bool,
}

impl<T> Job<T> {
    /// What has come in and was not read yet.
    pub closed spec fn landed(self) -> Option<Result<T, JobFailed>> {
        self.landed
    }

    /// Whether a failure was read.
    pub closed spec fn has_failed(self) -> bool {
        self.failed
    }

    /// Two jobs that were told alike are one to whoever asks.
    pub(crate) proof fn same_when_told_alike(self, other: Self)
        requires
            self.landed() == other.landed(),
            self.has_failed() == other.has_failed(),
        ensures
            self == other,
    {
    }

    /// A job that is still running.
    pub fn pending() -> (r: Self)
        ensures
            r.landed() is None,
            !r.has_failed(),
    {
        Job { landed: None, failed: false }
    }

    /// A job that has already come back with `value`.
    pub fn ready(value: T) -> (r: Self)
        ensures
            r.landed() == Some(Ok::<T, JobFailed>(value)),
            !r.has_failed(),
    {
        Job { landed: Some(Ok(value)), failed: false }
    }

    /// A job whose work has already unwound.
    pub fn panicked() -> (r: Self)
        ensures
            r.landed() == Some(Err::<T, JobFailed>(JobFailed)),
            !r.has_failed(),
    {
        Job { landed: Some(Err(JobFailed)), failed: false }
    }

    /// Take in what became of the job. The first word is kept.
    pub fn land(&mut self, outcome: Result<T, JobFailed>)
        ensures
            final(self).landed() == match old(self).landed() {
                None => Some(outcome),
                Some(first) => Some(first),
            },
            final(self).has_failed() == old(self).has_failed(),
    {
        if self.landed.is_none() {
            self.landed = Some(outcome);
        }
    }

    /// The result, once, if it has come in. A failure gives none, and shows
    /// through [`Job::failed`] from then on.
    pub fn poll(&mut self) -> (r: Option<T>)
        ensures
            r == match old(self).landed() {
                Some(Ok(value)) => Some(value),
                _ => None,
            },
            final(self).landed() is None,
            final(self).has_failed() == (old(self).has_failed() || (old(self).landed() is Some && old(self).landed()->0 is Err)),
    {
        match self.landed.take() {
            Some(Ok(value)) => Some(value),
            Some(Err(JobFailed)) => {
                self.failed = true;
                None
            },
            None => None,
        }
    }

    /// Whether a failure was read by an earlier [`Job::poll`].
    pub fn failed(&self) -> (r: bool)
        ensures
            r == self.has_failed(),
    {
        self.failed
    }
}

/// Taking and releasing keep a worker free of either class.
pub proof fn neither_class_takes_every_worker(queues: Queues, workers: nat, slot: Slot)
    requires
        queues.within(workers),
    ensures
        queues.taken(workers).within(workers),
        (slot is Interactive ==> queues.interactive_running > 0) && (slot is Background
            ==> queues.background_running > 0) ==> queues.released(slot).within(workers),
{
}

/// However much of one class is running or queued, a task of the other runs
/// once its own class has room: a pool of at least two workers with none of
/// the class running always has.
pub proof fn a_worker_is_left_for_the_other_class(queues: Queues, workers: nat)
    requires
        workers >= 2,
    ensures
        queues.interactive.len() > 0 && queues.interactive_running == 0 ==> queues.next(
            workers,
        ) == Some((queues.interactive[0], Slot::Interactive)),
        queues.background.len() > 0 && queues.background_running == 0 && (
        !queues.admits(Slot::Interactive, workers) || queues.interactive.len() == 0)
            ==> queues.next(workers) == Some((queues.background[0], Slot::Background)),
{
}

/// A task that ends gives its place back: the class admits again what it
/// admitted before.
pub proof fn a_finished_task_frees_its_place(queues: Queues, workers: nat)
    requires
        queues.next(workers) is Some,
    ensures
        ({
            let slot = (queues.next(workers)->0).1;
            let after = queues.taken(workers).released(slot);
            &&& after.interactive_running == queues.interactive_running
            &&& after.background_running == queues.background_running
        }),
{
}

/// A task waits behind those of its class handed in before it, and goes in
/// front of those handed in after.
pub proof fn a_class_runs_in_order(queues: Queues, priority: Priority, task: u64, workers: nat)
    requires
        queues.next(workers) is Some,
    ensures
        queues.submitted(priority, task).next(workers) == queues.next(workers) || (
        queues.interactive.len() == 0 && priority is Interactive),
{
}

} // verus!

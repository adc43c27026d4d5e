use alacritree::in_flight::{InFlight, ABANDONED};
use alacritree::ipc::protocol::IpcResult;
use alacritree::jobs::{
    child_step, pool_size, release, submit, take, turn, worker_count, Asked, ChildStep, Job,
    JobFailed, Priority, Slot, State, Turn, CHILD_POLL,
};
use alacritree::json::{object, Json};
use alacritree::pending_spawn::{Finished, Open, PendingSpawns, WORKER_STOPPED};

fn state_with(interactive: usize, background: usize) -> State {
    let mut state = State::default();
    for id in 0..interactive {
        submit(&mut state, Priority::Interactive, id as u64);
    }
    for id in 0..background {
        submit(&mut state, Priority::Background, 100 + id as u64);
    }
    state
}

#[test]
fn interactive_work_goes_first() {
    let mut state = state_with(1, 1);
    let (_, slot) = take(&mut state, 4).expect("a runnable task");
    assert!(matches!(slot, Slot::Interactive));
    assert_eq!(state.background.len(), 1, "the background task is still queued");
}

#[test]
fn a_worker_stays_free_for_interactive_work() {
    let mut state = state_with(0, 3);
    assert!(take(&mut state, 2).is_some(), "the first background task runs");
    assert!(take(&mut state, 2).is_none(), "the second would leave no worker for a click");
    assert_eq!(state.background.len(), 2);
}

#[test]
fn a_finished_background_task_frees_its_slot() {
    let mut state = state_with(0, 2);
    take(&mut state, 2).expect("the first background task runs");
    state.background_running -= 1;
    assert!(take(&mut state, 2).is_some(), "the freed slot admits the next one");
}

#[test]
fn a_second_background_job_runs_after_the_first_finishes() {
    let workers = worker_count(2);
    let mut state = state_with(0, 2);
    let (first, slot) = take(&mut state, workers).expect("the first runs");
    assert_eq!((first, slot), (100, Slot::Background));
    release(&mut state, slot);
    let second = take(&mut state, workers);
    assert_eq!(
        second,
        Some((101, Slot::Background)),
        "the slot the first job held must be free for the second"
    );
}

/// A job that unwinds gives its place back as one that returns does.
#[test]
fn a_panicking_background_job_frees_its_slot() {
    let workers = worker_count(2);
    let mut state = state_with(0, 2);
    let (_, slot) = take(&mut state, workers).expect("the panicking job runs");
    assert_eq!(turn(false, slot), Turn::Run { lowered: true });
    let mut panicking: Job<u32> = Job::pending();
    panicking.land(Err(JobFailed));
    release(&mut state, slot);
    assert!(
        take(&mut state, workers).is_some(),
        "a panicking job must not permanently occupy its background slot"
    );
    assert_eq!(panicking.poll(), None);
}

#[test]
fn a_job_still_running_has_not_failed() {
    let mut job: Job<()> = Job::pending();
    assert!(job.poll().is_none(), "the job has not landed yet");
    assert!(!job.failed(), "a job merely still running has not failed");
}

/// The failure is there to be read by the time anything is told of it.
#[test]
fn a_panicking_job_wakes_the_ui_with_its_failure_already_readable() {
    let mut job: Job<u32> = Job::panicked();
    assert!(!job.failed());
    assert!(job.poll().is_none(), "a panicking job never reports a value");
    assert!(job.failed(), "the failure must be readable on the frame the wake brings");
    assert!(job.poll().is_none());
    assert!(job.failed());
}

/// Interactive work must not be able to take every worker.
#[test]
fn interactive_work_leaves_a_worker_for_background() {
    let workers = worker_count(4);
    let mut state = state_with(4, 1);
    for _ in 0..3 {
        assert!(matches!(take(&mut state, workers), Some((_, Slot::Interactive))));
    }
    assert_eq!(
        take(&mut state, workers),
        Some((100, Slot::Background)),
        "the background job never ran: interactive work took every worker"
    );
}

#[test]
fn dropping_the_handle_cancels_work_that_has_not_started() {
    let workers = worker_count(1);
    assert_eq!(workers, 2);
    let mut state = state_with(0, 2);
    let (_, blocker) = take(&mut state, workers).expect("the blocker runs");
    assert!(take(&mut state, workers).is_none());
    release(&mut state, blocker);
    let (_, slot) = take(&mut state, workers).expect("the cancelled task is taken");
    assert_eq!(turn(true, slot), Turn::Skip, "a cancelled task must not run");
}

#[test]
fn a_cancel_racing_registration_still_kills_the_child() {
    assert_eq!(child_step(Asked::Running, true), ChildStep::Wait(CHILD_POLL));
    assert_eq!(
        child_step(Asked::Exited, true),
        ChildStep::ReapCancelled,
        "the child outlived a cancel that landed before it was registered"
    );
}

#[test]
fn a_child_is_asked_after_until_it_exits() {
    assert_eq!(child_step(Asked::Running, false), ChildStep::Wait(25));
    assert_eq!(child_step(Asked::Exited, false), ChildStep::Collect);
    assert_eq!(child_step(Asked::Broken, false), ChildStep::Fail);
    assert_eq!(child_step(Asked::Gone, false), ChildStep::Cancelled);
}

#[test]
fn a_job_reports_its_value_once() {
    let mut job: Job<u32> = Job::ready(7);
    assert_eq!(job.poll(), Some(7));
    assert!(!job.failed(), "a job that reported a value did not fail");
    assert_eq!(job.poll(), None);
    let mut job: Job<u32> = Job::pending();
    job.land(Ok(1));
    job.land(Ok(2));
    assert_eq!(job.poll(), Some(1));
}

#[test]
fn a_pool_is_sized_within_a_narrow_range() {
    assert_eq!(pool_size(None), 4);
    assert_eq!(pool_size(Some(1)), 4);
    assert_eq!(pool_size(Some(6)), 6);
    assert_eq!(pool_size(Some(64)), 8);
    assert_eq!(worker_count(0), 2);
    assert_eq!(worker_count(8), 8);
}

#[test]
fn a_class_runs_in_the_order_it_was_handed_in() {
    let mut state = state_with(3, 0);
    let taken: Vec<u64> = (0..3).map(|_| take(&mut state, 8).expect("a task").0).collect();
    assert_eq!(taken, vec![0, 1, 2]);
    assert_eq!(turn(false, Slot::Interactive), Turn::Run { lowered: false });
}

fn value(n: u64) -> IpcResult {
    Ok(object(vec![("value".to_string(), Json::Unsigned(n))]))
}

#[test]
fn a_waiter_is_answered_only_with_the_reply_made_from_the_result() {
    let mut in_flight: InFlight<String, i32> = InFlight::default();
    let key = "/a".to_string();

    in_flight.start(key.clone(), || Job::pending());
    assert!(in_flight.watch(&key, 1).is_none(), "a running job takes the waiter");

    assert!(in_flight.take_finished().is_empty(), "nothing has ended yet");

    in_flight.land(&key, Ok(7));
    let mut finished = in_flight.take_finished();
    let done = finished.remove(0);
    assert_eq!((done.key.as_str(), done.outcome), ("/a", Some(7)));
    let answers = done.waiters.answer(value(7));

    assert_eq!(answers.len(), 1);
    assert_eq!(answers[0].waiter, 1);
    assert_eq!(answers[0].reply, value(7));
    assert!(in_flight.watch(&key, 2).is_some(), "a finished job is forgotten");
}

#[test]
fn starting_a_key_already_running_joins_the_running_job() {
    let mut in_flight: InFlight<u64, &str> = InFlight::default();

    assert!(in_flight.start(1, || Job::ready("done")));
    assert!(in_flight.watch(&1, 10).is_none());
    let started = in_flight.start(1, || panic!("a second job must not be spawned"));
    assert!(!started);
    assert!(in_flight.watch(&1, 20).is_none());

    let mut finished = in_flight.take_finished();
    assert_eq!(finished.len(), 1, "one job ran for both requests");
    let done = finished.remove(0);
    assert_eq!(done.outcome, Some("done"));
    let answers = done.waiters.answer(Ok(Json::Text("done".to_string())));

    let told: Vec<u64> = answers.iter().map(|a| a.waiter).collect();
    assert_eq!(told, vec![10, 20]);
    assert!(answers.iter().all(|a| a.reply == Ok(Json::Text("done".to_string()))));
}

#[test]
fn a_job_that_panics_answers_every_waiter_with_an_error() {
    let mut in_flight: InFlight<u64, ()> = InFlight::default();
    in_flight.start(1, || Job::panicked());
    in_flight.watch(&1, 10);
    in_flight.watch(&1, 20);

    let mut finished = in_flight.take_finished();

    assert_eq!(finished.len(), 1, "a panicked job must not stay pending");
    assert!(finished[0].outcome.is_none());
    let answers = finished.remove(0).waiters.abandon();
    assert_eq!(answers.len(), 2);
    assert!(answers[0].reply.is_err(), "a caller must never block forever");
    assert!(answers[1].reply.is_err());
}

#[test]
fn dropping_a_job_before_it_is_taken_answers_its_waiters() {
    let mut in_flight: InFlight<u64, ()> = InFlight::default();
    in_flight.start(1, || Job::ready(()));
    in_flight.watch(&1, 10);

    let answers = in_flight.abandon();

    assert_eq!(answers.len(), 1);
    assert_eq!(answers[0].waiter, 10);
    assert_eq!(answers[0].reply, Err(ABANDONED.to_string()));
}

#[test]
fn watching_a_key_with_nothing_running_hands_the_channel_back() {
    let mut in_flight: InFlight<u64, ()> = InFlight::default();

    assert!(in_flight.watch(&1, 10).is_some());
}

#[test]
fn jobs_that_have_not_ended_stay() {
    let mut in_flight: InFlight<u64, u8> = InFlight::default();
    in_flight.start(1, || Job::ready(1));
    in_flight.start(2, || Job::pending());
    in_flight.start(3, || Job::ready(3));
    in_flight.watch(&2, 20);
    let keys: Vec<u64> = in_flight.take_finished().iter().map(|f| f.key).collect();
    assert_eq!(keys, vec![1, 3]);
    in_flight.land(&2, Ok(2));
    let finished = in_flight.take_finished();
    assert_eq!(finished[0].outcome, Some(2));
    assert_eq!(finished[0].waiters.ids, vec![20]);
}

/// Nothing is opening for `id` any more: `watch` hands a waiter straight
/// back rather than parking it on an entry that will never resolve.
fn forgotten(spawns: &mut PendingSpawns<u8>, id: u64) -> bool {
    spawns.watch(id, 99).is_some()
}

#[test]
fn a_finished_open_comes_back_failed_with_its_id() {
    let mut spawns: PendingSpawns<u8> = PendingSpawns::default();
    spawns.start(1);

    spawns.land(1, Open::Refused("no such shell".to_string()));
    let finished = spawns.take_finished();

    assert_eq!(finished.len(), 1);
    match &finished[0] {
        Finished::Failed(id, e, _) => {
            assert_eq!(*id, 1);
            assert_eq!(e, "no such shell");
        },
        Finished::Opened(..) => panic!("expected Failed"),
    }
    assert!(forgotten(&mut spawns, 1), "a finished open is forgotten");
}

#[test]
fn a_worker_that_drops_its_sender_comes_back_failed_not_stuck_pending() {
    let mut spawns: PendingSpawns<u8> = PendingSpawns::default();
    spawns.start(1);
    spawns.land(1, Open::Stopped);

    let finished = spawns.take_finished();

    assert_eq!(finished.len(), 1);
    assert!(matches!(&finished[0], Finished::Failed(1, _, _)));
    assert!(
        forgotten(&mut spawns, 1),
        "a dropped sender must not leave a pending entry that never resolves"
    );
}

#[test]
fn a_waiter_parked_with_watch_is_answered_once_the_open_resolves() {
    let mut spawns: PendingSpawns<u8> = PendingSpawns::default();
    spawns.start(1);
    assert!(spawns.watch(1, 5).is_none(), "a pending open takes the waiter");

    spawns.land(1, Open::Refused("boom".to_string()));
    let mut finished = spawns.take_finished();
    assert_eq!(finished.len(), 1);
    let Finished::Failed(id, e, waiters) = finished.remove(0) else { panic!("expected Failed") };
    assert_eq!(id, 1);
    let answers = PendingSpawns::<u8>::answer(waiters, Err(e));

    assert_eq!(answers.len(), 1);
    assert_eq!(answers[0].waiter, 5);
    assert_eq!(answers[0].reply, Err("boom".to_string()));
}

#[test]
fn watching_an_id_nothing_is_opening_hands_the_channel_back() {
    let mut spawns: PendingSpawns<u8> = PendingSpawns::default();

    assert!(spawns.watch(1, 5).is_some());
}

#[test]
fn an_open_brings_what_the_session_needs() {
    let mut spawns: PendingSpawns<u8> = PendingSpawns::default();
    spawns.start(1);
    spawns.start(2);
    spawns.watch(2, 7);
    spawns.land(2, Open::Opened(42));
    let mut finished = spawns.take_finished();
    assert_eq!(finished.len(), 1);
    assert!(matches!(finished.remove(0), Finished::Opened(2, 42, waiters) if waiters == vec![7]));
    assert!(spawns.take_finished().is_empty());
    spawns.start(1);
    spawns.land(1, Open::Stopped);
    let mut finished = spawns.take_finished();
    assert!(matches!(finished.remove(0), Finished::Failed(1, e, _) if e == WORKER_STOPPED));
}

/// Opens that resolve together are handed over each once, in any order, and
/// one that is waited for stays.
#[test]
fn opens_that_resolve_together_come_out_once_each() {
    let mut spawns: PendingSpawns<u8> = PendingSpawns::default();
    for id in 1..=4 {
        spawns.start(id);
        spawns.watch(id, 10 * id);
    }
    spawns.land(1, Open::Opened(7));
    spawns.land(3, Open::Stopped);
    spawns.land(4, Open::Refused("no".to_string()));
    spawns.land(9, Open::Opened(9));
    let mut seen: Vec<(u64, Vec<u64>)> = spawns
        .take_finished()
        .into_iter()
        .map(|finished| match finished {
            Finished::Opened(id, _, waiters) | Finished::Failed(id, _, waiters) => (id, waiters),
        })
        .collect();
    seen.sort();
    assert_eq!(seen, [(1, vec![10]), (3, vec![30]), (4, vec![40])]);
    assert!(spawns.take_finished().is_empty());
    assert!(!forgotten(&mut spawns, 2));
}

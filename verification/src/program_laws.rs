//! What the parts behind the window promise: workers, opens, logs, names and
//! summaries.

use vstd::prelude::*;

#[allow(unused_imports)]
use crate::icon::{icon_of, FrameView};
#[allow(unused_imports)]
use crate::in_flight::{each_answered, ended, has_ended, outcome_of, place_of, Answer, Running, WorkKey};
#[allow(unused_imports)]
use crate::jobs::{pool_for, turn_of, workers_for, Job, Priority, Queues, Slot, Turn};
#[allow(unused_imports)]
use crate::json::Tree;
#[allow(unused_imports)]
use crate::logging::{digits_end, is_prunable, log_name, log_parts, number, Created, LogSearch, LogStep};
#[allow(unused_imports)]
use crate::notify::{attention_text, newest, session_label, tells_of_a_click};
#[allow(unused_imports)]
use crate::paint_phases::{phase_name, phase_summary, Phase, PhaseTotal, Totals};
#[allow(unused_imports)]
use crate::paths::last_name;
#[allow(unused_imports)]
use crate::pending_spawn::{is_resolved, resolution, unresolved, Open, Pending, Resolved};
#[allow(unused_imports)]
use crate::side::Platform;
#[allow(unused_imports)]
use crate::text::decimal;
#[allow(unused_imports)]
use crate::text_laws::written;

verus! {

/// A task goes behind those of its own class, and the other class stays.
pub proof fn a_task_goes_behind_its_class(queues: Queues, task: u64)
    ensures
        queues.submitted(Priority::Interactive, task).interactive == queues.interactive.push(task),
        queues.submitted(Priority::Interactive, task).background == queues.background,
        queues.submitted(Priority::Background, task).background == queues.background.push(task),
        queues.submitted(Priority::Background, task).interactive == queues.interactive,
        queues.submitted(Priority::Background, task).background_running == queues.background_running,
        queues.submitted(Priority::Interactive, task).interactive_running == queues.interactive_running,
{
}

/// What a user waits for goes first, if a worker is left for it; what is done
/// in the background goes next; each class keeps one worker free for the other.
pub proof fn which_task_goes_next(queues: Queues, workers: nat)
    ensures
        queues.interactive.len() > 0 && queues.interactive_running + 1 < workers ==> queues.next(workers) == Some(
            (queues.interactive[0], Slot::Interactive),
        ),
        (queues.interactive.len() == 0 || queues.interactive_running + 1 >= workers) && queues.background.len() > 0
            && queues.background_running + 1 < workers ==> queues.next(workers) == Some(
            (queues.background[0], Slot::Background),
        ),
        (queues.interactive.len() == 0 || queues.interactive_running + 1 >= workers) && (queues.background.len() == 0
            || queues.background_running + 1 >= workers) ==> queues.next(workers) is None,
{
}

/// A task that goes leaves its queue and counts as running in its class, until
/// it is released there.
pub proof fn a_task_that_goes_counts_as_running(queues: Queues, workers: nat, task: u64)
    ensures
        queues.next(workers) == Some((task, Slot::Interactive)) ==> {
            let after = queues.taken(workers);
            &&& after.interactive == queues.interactive.subrange(1, queues.interactive.len() as int)
            &&& after.interactive_running == queues.interactive_running + 1
            &&& after.background == queues.background && after.background_running == queues.background_running
            &&& after.released(Slot::Interactive).interactive_running == queues.interactive_running
        },
        queues.next(workers) == Some((task, Slot::Background)) ==> {
            let after = queues.taken(workers);
            &&& after.background == queues.background.subrange(1, queues.background.len() as int)
            &&& after.background_running == queues.background_running + 1
            &&& after.interactive == queues.interactive && after.interactive_running == queues.interactive_running
            &&& after.released(Slot::Background).background_running == queues.background_running
        },
        queues.next(workers) is None ==> queues.taken(workers) == queues,
{
    if queues.interactive.len() > 0 {
        assert(queues.interactive.skip(1) =~= queues.interactive.subrange(1, queues.interactive.len() as int));
    }
    if queues.background.len() > 0 {
        assert(queues.background.skip(1) =~= queues.background.subrange(1, queues.background.len() as int));
    }
}

/// A job has ended where something landed of it or it failed; only what it
/// returned is its outcome.
pub proof fn when_a_job_has_ended<T>(job: Job<T>)
    ensures
        has_ended(job) <==> job.landed() is Some || job.has_failed(),
        job.landed() matches Some(Ok(value)) ==> outcome_of(job) == Some(value),
        job.landed() is None || job.landed()->0 is Err ==> outcome_of(job) is None,
{
}

/// The jobs that ended are handed over in order, each with its key, its outcome
/// and those who wait on it; the others are not.
pub proof fn the_jobs_that_ended<K, T>(running: Seq<Running<K, T>>, last: Running<K, T>)
    ensures
        ended(Seq::<Running<K, T>>::empty()).len() == 0,
        has_ended(last.job) ==> ended(running.push(last)) == ended(running).push(
            (last.key, outcome_of(last.job), last.waiters@),
        ),
        !has_ended(last.job) ==> ended(running.push(last)) == ended(running),
{
    assert(running.push(last).drop_last() =~= running);
}

/// Everyone who waits is answered once, in order, and with the same reply.
pub proof fn everyone_is_answered(answers: Seq<Answer>, ids: Seq<u64>, reply: Result<Tree, Seq<char>>, i: int)
    requires
        each_answered(answers, ids, reply),
        0 <= i < ids.len(),
    ensures
        answers.len() == ids.len(),
        answers[i].waiter == ids[i],
        reply matches Ok(value) ==> answers[i].reply is Ok && answers[i].reply->Ok_0@ == value,
        reply matches Err(words) ==> answers[i].reply is Err && answers[i].reply->Err_0@ == words,
{
    assert(answers[i].waiter == ids[i]);
}

/// An open that waits comes to nothing yet; one that succeeded is handed over;
/// and one that was refused or whose worker stopped failed in those words. Each
/// with those who wait on it.
pub proof fn what_an_open_comes_to<A>(id: u64, pending: Pending<A>)
    ensures
        match pending.open {
            Open::Waiting => resolution(id, pending) is None,
            Open::Opened(opened) => resolution(id, pending) == Some(
                Resolved::Opened(id, opened, pending.waiters@),
            ),
            Open::Refused(error) => resolution(id, pending) == Some(
                Resolved::<A>::Failed(id, error@, pending.waiters@),
            ),
            Open::Stopped => resolution(id, pending) == Some(
                Resolved::<A>::Failed(id, "the session's PTY worker stopped"@, pending.waiters@),
            ),
        },
{
}

/// The opens that are left are those that still wait, as they were.
pub proof fn the_opens_that_are_left<A>(pending: Map<u64, Pending<A>>, id: u64)
    ensures
        unresolved(pending).contains_key(id) <==> pending.contains_key(id) && pending[id].open is Waiting,
        unresolved(pending).contains_key(id) ==> unresolved(pending)[id] == pending[id],
        is_resolved(pending, id) <==> pending.contains_key(id) && !unresolved(pending).contains_key(id),
{
}

/// A session is called by the last name of its directory, and by its title
/// where that has none.
pub proof fn what_a_session_is_called(directory: Seq<char>, title: Seq<char>, platform: Platform)
    ensures
        last_name(directory, platform) matches Some(name) ==> session_label(Some(directory), title, platform) == name,
        last_name(directory, platform) is None ==> session_label(Some(directory), title, platform) == title,
        session_label(None, title, platform) == title,
{
}

/// A session that waits is announced by its name, or as a session.
pub proof fn how_a_waiting_session_is_announced(label: Seq<char>)
    ensures
        label.len() > 0 ==> attention_text(label) == label + " is waiting for input"@,
        label.len() == 0 ==> attention_text(label) == "Session is waiting for input"@,
{
}

/// A log is named after the time and the process, and counted where that name
/// was taken.
pub proof fn what_a_log_is_named(start: nat, pid: nat, ordinal: nat)
    ensures
        log_name(start, pid, 0) == "alacritree-"@ + decimal(start) + "-"@ + decimal(pid) + ".log"@,
        ordinal > 0 ==> log_name(start, pid, ordinal) == "alacritree-"@ + decimal(start) + "-"@ + decimal(pid) + (
        "-"@ + decimal(ordinal) + ".log"@),
{
}

/// A row of digits is the number it writes.
pub proof fn digits_are_the_number_they_write(digits: Seq<char>)
    requires
        forall|i: int| 0 <= i < digits.len() ==> '0' <= #[trigger] digits[i] <= '9',
    ensures
        number(digits) == written(digits),
    decreases digits.len(),
{
    if digits.len() > 0 {
        let front = digits.drop_last();
        assert forall|i: int| 0 <= i < front.len() implies '0' <= #[trigger] front[i] <= '9' by {
            assert(front[i] == digits[i]);
        }
        digits_are_the_number_they_write(front);
        assert('0' <= digits[digits.len() - 1] <= '9');
    }
}

/// An icon is the part of the buffer that was drawn, with the picture's width
/// and height; what fails on the way is said in front of why.
pub proof fn what_an_icon_is(size: nat, frame: FrameView, error: Seq<char>, other: Result<FrameView, Seq<char>>)
    ensures
        icon_of(Ok(size), Ok(frame)) matches Ok(icon) && icon.1 == frame.width && icon.2 == frame.height && (frame.used
            < frame.buffer.len() ==> icon.0 == frame.buffer.subrange(0, frame.used as int)) && (frame.used
            >= frame.buffer.len() ==> icon.0 == frame.buffer),
        icon_of(Err(error), other) == Err::<(Seq<u8>, nat, nat), Seq<char>>(
            "failed to read window icon header: "@ + error,
        ),
        icon_of(Ok(size), Err(error)) == Err::<(Seq<u8>, nat, nat), Seq<char>>(
            "failed to decode window icon: "@ + error,
        ),
{
}

/// A phase of painting is summed up as its name, its time and its calls, and
/// not at all where it was never called.
pub proof fn how_a_phase_is_summed_up(phase: Phase, total: PhaseTotal, took: Seq<char>)
    ensures
        phase_name(Phase::Capture) == "capture"@,
        phase_name(Phase::WriteRows) == "write"@,
        phase_name(Phase::Decorations) == "decor"@,
        total.calls == 0 ==> phase_summary(phase, total, took).len() == 0,
        total.calls > 0 ==> phase_summary(phase, total, took) == phase_name(phase) + seq![' '] + took + seq!['/']
            + decimal(total.calls as nat) + seq![' '],
{
    reveal_strlit(" ");
    reveal_strlit("/");
    assert(" "@ =~= seq![' ']);
    assert("/"@ =~= seq!['/']);
}

/// Each phase has a total of its own.
pub proof fn each_phase_has_its_total(totals: Totals)
    ensures
        totals.of(Phase::Capture) == totals.capture,
        totals.of(Phase::WriteRows) == totals.write_rows,
        totals.of(Phase::Decorations) == totals.decorations,
{
}

proof fn the_first_job_is_found<K: WorkKey, T>(running: Seq<Running<K, T>>, key: K::V)
    ensures
        match place_of(running, key) {
            Some(at) => 0 <= at < running.len() && running[at].key@ == key && forall|i: int|
                0 <= i < at ==> (#[trigger] running[i]).key@ != key,
            None => forall|i: int| 0 <= i < running.len() ==> (#[trigger] running[i]).key@ != key,
        },
    decreases running.len(),
{
    if running.len() > 0 {
        let front = running.drop_last();
        the_first_job_is_found(front, key);
        assert forall|i: int| 0 <= i < front.len() implies #[trigger] running[i] == front[i] by {}
    }
}

/// Work is under way where a job has its key, at the first that has it.
pub proof fn where_work_is_under_way<K: WorkKey, T>(running: Seq<Running<K, T>>, key: K::V, at: int)
    ensures
        0 <= at < running.len() && running[at].key@ == key && (forall|i: int|
            0 <= i < at ==> (#[trigger] running[i]).key@ != key) ==> place_of(running, key) == Some(at),
        (forall|i: int| 0 <= i < running.len() ==> (#[trigger] running[i]).key@ != key) ==> place_of(running, key) is None,
{
    the_first_job_is_found(running, key);
}

/// A name that does not begin as a log's is none.
pub proof fn another_name_is_no_log(name: Seq<char>)
    requires
        !"alacritree-"@.is_prefix_of(name),
    ensures
        log_parts(name) is None,
{
}

proof fn digits_go_on_to_their_end(s: Seq<char>, from: int, end: int)
    requires
        0 <= from <= end <= s.len(),
        forall|i: int| from <= i < end ==> '0' <= #[trigger] s[i] <= '9',
        end < s.len() ==> !('0' <= s[end] <= '9'),
    ensures
        digits_end(s, from) == end,
    decreases end - from,
{
    if from < end {
        assert('0' <= s[from] <= '9');
        digits_go_on_to_their_end(s, from + 1, end);
    }
}

/// A log's name is its prefix, two numbers with a dash between, and nothing, a
/// dash or a dot behind: it is known by exactly those two numbers.
pub proof fn a_log_is_known_by_two_numbers(start: Seq<char>, pid: Seq<char>, rest: Seq<char>)
    requires
        start.len() > 0,
        pid.len() > 0,
        forall|i: int| 0 <= i < start.len() ==> '0' <= #[trigger] start[i] <= '9',
        forall|i: int| 0 <= i < pid.len() ==> '0' <= #[trigger] pid[i] <= '9',
        rest.len() > 0 ==> !('0' <= rest[0] <= '9'),
    ensures
        rest.len() == 0 || rest[0] == '-' || rest[0] == '.' ==> log_parts(
            "alacritree-"@ + start + seq!['-'] + pid + rest,
        ) == Some((written(start) as nat, written(pid) as nat)),
        rest.len() > 0 && rest[0] != '-' && rest[0] != '.' ==> log_parts(
            "alacritree-"@ + start + seq!['-'] + pid + rest,
        ) is None,
{
    let head = "alacritree-"@;
    let name = head + start + seq!['-'] + pid + rest;
    let a = head.len() as int;
    let b = a + start.len();
    let d = b + 1 + pid.len();
    assert(head =~= name.take(a));
    assert forall|i: int| a <= i < b implies '0' <= #[trigger] name[i] <= '9' by {
        assert(name[i] == start[i - a]);
    }
    assert(name[b] == '-');
    assert forall|i: int| b + 1 <= i < d implies '0' <= #[trigger] name[i] <= '9' by {
        assert(name[i] == pid[i - b - 1]);
    }
    if rest.len() > 0 {
        assert(name[d] == rest[0]);
    }
    digits_go_on_to_their_end(name, a, b);
    digits_go_on_to_their_end(name, b + 1, d);
    assert(name.subrange(a, b) =~= start);
    assert(name.subrange(b + 1, d) =~= pid);
    digits_are_the_number_they_write(start);
    digits_are_the_number_they_write(pid);
}

/// A name without either number is no log's.
pub proof fn a_log_has_both_numbers(start: Seq<char>, rest: Seq<char>)
    requires
        forall|i: int| 0 <= i < start.len() ==> '0' <= #[trigger] start[i] <= '9',
        rest.len() > 0 ==> !('0' <= rest[0] <= '9'),
    ensures
        log_parts("alacritree-"@ + rest) is None,
        log_parts("alacritree-"@ + start + seq!['-'] + rest) is None,
        rest.len() == 0 || rest[0] != '-' ==> log_parts("alacritree-"@ + start + rest) is None,
{
    let head = "alacritree-"@;
    let a = head.len() as int;
    let one = head + rest;
    if rest.len() > 0 {
        assert(one[a] == rest[0]);
    }
    digits_go_on_to_their_end(one, a, a);
    let two = head + start + seq!['-'] + rest;
    let b = a + start.len();
    assert forall|i: int| a <= i < b implies '0' <= #[trigger] two[i] <= '9' by {
        assert(two[i] == start[i - a]);
    }
    assert(two[b] == '-');
    if rest.len() > 0 {
        assert(two[b + 1] == rest[0]);
    }
    digits_go_on_to_their_end(two, a, b);
    digits_go_on_to_their_end(two, b + 1, b + 1);
    let three = head + start + rest;
    assert forall|i: int| a <= i < b implies '0' <= #[trigger] three[i] <= '9' by {
        assert(three[i] == start[i - a]);
    }
    if rest.len() > 0 {
        assert(three[b] == rest[0]);
    }
    digits_go_on_to_their_end(three, a, b);
}

/// A pool has the workers it is asked for, and never fewer than two.
pub proof fn how_many_workers_a_pool_has(workers: usize, more: usize)
    ensures
        workers_for(workers) >= 2,
        workers_for(workers) >= workers,
        workers >= 2 ==> workers_for(workers) == workers,
        workers <= more ==> workers_for(workers) <= workers_for(more),
        workers < 2 ==> workers_for(workers) == 2,
{
}

/// The process-wide pool has a worker for each thread the machine runs at once,
/// between four and eight, and four where that is not known.
pub proof fn how_many_workers_the_process_has(n: usize)
    ensures
        4 <= pool_for(Some(n)) <= 8,
        4 <= n <= 8 ==> pool_for(Some(n)) == n,
        n < 4 ==> pool_for(Some(n)) == 4,
        n > 8 ==> pool_for(Some(n)) == 8,
        pool_for(None) == pool_for(Some(4)),
{
}

/// A cancelled task is skipped; any other runs, at a lowered priority exactly
/// where it is background work.
pub proof fn what_a_worker_does_with_a_task(slot: Slot)
    ensures
        turn_of(true, slot) == Turn::Skip,
        turn_of(false, Slot::Interactive) == (Turn::Run { lowered: false }),
        turn_of(false, Slot::Background) == (Turn::Run { lowered: true }),
{
}

/// A child that runs is asked after again in 25 milliseconds; one that exited
/// is collected, or only reaped where the job was cancelled; one that is gone
/// was cancelled, and one that cannot be asked after failed.
pub proof fn what_is_done_about_a_child(cancelled: bool)
    ensures
        crate::jobs::step_of(crate::jobs::Asked::Running, cancelled) == crate::jobs::ChildStep::Wait(25),
        crate::jobs::step_of(crate::jobs::Asked::Exited, false) == crate::jobs::ChildStep::Collect,
        crate::jobs::step_of(crate::jobs::Asked::Exited, true) == crate::jobs::ChildStep::ReapCancelled,
        crate::jobs::step_of(crate::jobs::Asked::Gone, cancelled) == crate::jobs::ChildStep::Cancelled,
        crate::jobs::step_of(crate::jobs::Asked::Broken, cancelled) == crate::jobs::ChildStep::Fail,
{
}

/// A search for a free log name goes on by one where a name is taken, through
/// 32 names, and ends where a log opens or cannot be made; the name settles
/// where it was the first.
pub proof fn how_a_log_name_is_searched_for(search: LogSearch)
    requires
        search.first + 32 <= u32::MAX,
        search.tries < 32,
    ensures
        search.tries < 31 ==> search.step(Created::Exists) == LogStep::Try((search.first + search.tries + 1) as u32),
        search.tries == 31 ==> search.step(Created::Exists) == LogStep::GiveUp,
        search.step(Created::Failed) == LogStep::GiveUp,
        search.tries == 0 ==> search.step(Created::Opened) == (LogStep::Opened { settles: true }),
        search.tries > 0 ==> search.step(Created::Opened) == (LogStep::Opened { settles: false }),
{
}

/// A log is pruned a week after it was last written, if its process is gone.
pub proof fn when_a_log_is_pruned(at: u64, now: u64)
    ensures
        !is_prunable(true, Some(at), now),
        !is_prunable(false, None, now),
        is_prunable(false, Some(at), now) <==> now - at >= 7 * 24 * 60 * 60,
{
}

/// A report is a click unless it says that the notification was closed; of
/// clicks that piled up the newest counts.
pub proof fn which_click_counts(action: Seq<char>, clicks: Seq<u64>, last: u64)
    ensures
        tells_of_a_click(action) <==> action != "__closed"@,
        newest(Seq::empty()) is None,
        newest(clicks.push(last)) == Some(last),
{
}

/// Each end waits longer than the one it waits for: a client longer than the
/// application is given to reply, and longer for a worktree than one may take.
pub proof fn each_end_outwaits_the_next()
    ensures
        crate::ipc::server::APP_REPLY_TIMEOUT == 10 * 1000,
        crate::ipc::server::APP_REPLY_TIMEOUT < crate::mcp::patience(crate::ipc::request::Asked::ListSessions),
        crate::ipc::server::IPC_CREATE_BUDGET == 4 * 60 * 1000,
        crate::ipc::server::IPC_CREATE_BUDGET < crate::mcp::patience(
            crate::ipc::request::Asked::CreateWorktree { project_root: Seq::empty(), branch: Seq::empty() },
        ),
        crate::herdr::cli::GESTURE_TIMEOUT == 3 * 1000,
        crate::herdr::cli::STDERR_GRACE < crate::herdr::cli::GESTURE_TIMEOUT,
        crate::herdr::endpoints::DISTRO_REFRESH == 10 * 1_000_000_000,
{
}

/// The words for work that came to nothing.
pub proof fn what_is_said_of_lost_work()
    ensures
        crate::jobs::JOB_CANCELLED@ == "job cancelled"@,
        crate::in_flight::ABANDONED@ == "the work this request waited on was abandoned"@,
        crate::herdr::host::CLOSED_BEFORE_ATTACH@
            == "the session behind this pane was closed before the attach finished"@,
        crate::logging::SINK_FAILED@ == "alacritree: log file write failed; disabling it\n"@,
        crate::notify::SUMMARY@ == "alacritree"@,
        crate::notify::OPEN_ACTION@ == "default"@,
        crate::herdr::model::PROGRAM@ == "herdr"@,
{
}

/// A mirror that fails is closed and that is told, once.
pub proof fn a_failed_mirror_is_told_once(tee: crate::logging::Tee, succeeded: bool)
    ensures
        tee.open && succeeded ==> tee.after_write(succeeded) == (tee, false),
        tee.open && !succeeded ==> !tee.after_write(succeeded).0.open && tee.after_write(succeeded).1,
        !tee.open ==> tee.after_write(succeeded) == (tee, false),
{
}

} // verus!

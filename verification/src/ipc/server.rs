//! The listening side of the socket: where a request's answer comes from, and
//! how long it is waited for.

use vstd::prelude::*;

use crate::ipc::protocol::{IpcResult, SOCKET_ENV};
#[allow(unused_imports)]
use crate::ipc::protocol::answer_view;
use crate::ipc::request::{read_line, Unread};
#[allow(unused_imports)]
use crate::ipc::request::request_read;
use crate::ipc::route::Route;
#[allow(unused_imports)]
use crate::ipc::route::lane_of;
use crate::json;
use crate::json::{array, object, Json};
#[allow(unused_imports)]
use crate::json::{member_trees, trees, Tree};
use crate::text::{concat2, concat3, decimal_text, same, split};
#[allow(unused_imports)]
use crate::text::{decimal, either, opt_slice, split_is_not_empty, split_on, texts};

verus! {

/// The variable that names a session to the programs running in it.
pub const SESSION_ID_ENV: &'static str = "ALACRITREE_SESSION_ID";

/// Absolute path to the running binary.  A shell can exec the CLI through it
/// without a PATH lookup, which is the only reliable way in a distro, where
/// the Windows binary is reachable through interop but is not on `$PATH`.
pub const EXE_ENV: &'static str = "ALACRITREE_EXE";

/// How long a connection waits for the app before giving up, in milliseconds.
/// It is long enough for a busy frame, short enough that a wedged app doesn't
/// hang clients forever.
pub const APP_REPLY_TIMEOUT: u64 = 10_000;

/// How long one create request may hold a worker, in milliseconds.
///
/// It sits under the time the clients allow so that an overrun is reported by
/// the side that knows why it overran.
pub const IPC_CREATE_BUDGET: u64 = 240_000;

/// Whether `WSLENV` lists a variable, under whatever conversion flags.
pub open spec fn lists(wslenv: Seq<char>, name: Seq<char>) -> bool {
    exists|i: int|
        0 <= i < split_on(wslenv, ':').len() && entry_name(#[trigger] split_on(wslenv, ':')[i]) == name
}

/// The variable an entry of `WSLENV` names.
pub open spec fn entry_name(entry: Seq<char>) -> Seq<char> {
    split_on(entry, '/')[0]
}

/// `WSLENV` with one variable listed.
pub open spec fn listing(wslenv: Seq<char>, name: Seq<char>, flags: Seq<char>) -> Seq<char> {
    if lists(wslenv, name) {
        wslenv
    } else if wslenv.len() == 0 {
        name + flags
    } else {
        wslenv + seq![':'] + name + flags
    }
}

/// `WSLENV` with every variable that crosses into a distro listed.
pub open spec fn shared_env(wslenv: Seq<char>) -> Seq<char> {
    listing(listing(listing(wslenv, SOCKET_ENV@, ""@), SESSION_ID_ENV@, ""@), EXE_ENV@, "/p"@)
}

fn env_lists(wslenv: &str, name: &str) -> (r: bool)
    ensures
        r == lists(wslenv@, name@),
{
    let entries = split(wslenv, ':');
    let ghost all = split_on(wslenv@, ':');
    let mut i: usize = 0;
    while i < entries.len()
        invariant
            i <= entries@.len(),
            all == split_on(wslenv@, ':'),
            texts(entries@) == all,
            forall|k: int| 0 <= k < i ==> entry_name(#[trigger] all[k]) != name@,
        decreases entries@.len() - i,
    {
        assert(all[i as int] == entries@[i as int]@);
        let parts = split(&entries[i], '/');
        proof {
            split_is_not_empty(entries@[i as int]@, either('/', '/'));
            assert(texts(parts@)[0] == parts@[0]@);
        }
        if same(&parts[0], name) {
            return true;
        }
        i += 1;
    }
    assert(all.len() == entries@.len());
    false
}

fn with_listed(wslenv: String, name: &str, flags: &str) -> (r: String)
    ensures
        r@ == listing(wslenv@, name@, flags@),
{
    if env_lists(&wslenv, name) {
        return wslenv;
    }
    if same(&wslenv, "") {
        proof {
            reveal_strlit("");
        }
        return concat2(name, flags);
    }
    proof {
        reveal_strlit("");
        reveal_strlit(":");
        if wslenv@.len() == 0 {
            assert(wslenv@ =~= ""@);
        }
        assert(":"@ =~= seq![':']);
    }
    concat2(concat3(&wslenv, ":", name).as_str(), flags)
}

/// `WSLENV` extended with the variables a session's programs need.  Whatever
/// the user already shares across the boundary is preserved.
///
/// Only the binary path carries a conversion flag: `/p` has WSL rewrite it
/// into the distro's view of the drive.  A pipe name and an id are not paths.
pub fn wslenv_with_alacritree_vars(current: Option<&str>) -> (r: String)
    ensures
        r@ == shared_env(
            match current {
                Some(current) => current@,
                None => ""@,
            },
        ),
{
    let start = match current {
        Some(current) => current.to_owned(),
        None => "".to_owned(),
    };
    let with_socket = with_listed(start, SOCKET_ENV, "");
    let with_session = with_listed(with_socket, SESSION_ID_ENV, "");
    with_listed(with_session, EXE_ENV, "/p")
}

/// A text's pieces, with another text behind a separator, are the pieces of
/// both.
proof fn split_joins(a: Seq<char>, b: Seq<char>, sep: char)
    ensures
        split_on(a + seq![sep] + b, sep) == split_on(a, sep) + split_on(b, sep),
    decreases b.len(),
{
    let is_sep = either(sep, sep);
    let whole = a + seq![sep] + b;
    split_is_not_empty(b, is_sep);
    if b.len() == 0 {
        assert(whole.drop_last() =~= a);
        assert(split_on(b, sep) =~= seq![Seq::<char>::empty()]);
        assert(split_on(whole, sep) =~= split_on(a, sep) + split_on(b, sep));
    } else {
        let front = b.drop_last();
        split_joins(a, front, sep);
        split_is_not_empty(front, is_sep);
        assert(whole.drop_last() =~= a + seq![sep] + front);
        assert(whole.last() == b.last());
        let x = split_on(a, sep);
        let y = split_on(front, sep);
        assert((x + y).drop_last() =~= x + y.drop_last());
        assert((x + y).last() == y.last());
        assert(split_on(whole, sep) =~= x + split_on(b, sep));
    }
}

proof fn no_separator_no_split(s: Seq<char>, sep: char)
    requires
        forall|i: int| 0 <= i < s.len() ==> s[i] != sep,
    ensures
        split_on(s, sep) == seq![s],
    decreases s.len(),
{
    if s.len() == 0 {
        assert(s =~= Seq::<char>::empty());
    } else {
        no_separator_no_split(s.drop_last(), sep);
        assert(s.drop_last().push(s.last()) =~= s);
        assert(split_on(s, sep) =~= seq![s]);
    }
}

/// A name that a variable can have in `WSLENV`: it holds neither of the
/// characters that part entries and flags.
pub open spec fn plain_name(name: Seq<char>) -> bool {
    forall|i: int| 0 <= i < name.len() ==> name[i] != ':' && name[i] != '/'
}

/// Flags behind a name: none, or a slash and letters.
pub open spec fn plain_flags(flags: Seq<char>) -> bool {
    flags.len() == 0 || (flags[0] == '/' && forall|i: int|
        1 <= i < flags.len() ==> flags[i] != ':' && flags[i] != '/')
}

proof fn an_entry_names_its_variable(name: Seq<char>, flags: Seq<char>)
    requires
        plain_name(name),
        plain_flags(flags),
    ensures
        split_on(name + flags, ':') == seq![name + flags],
        entry_name(name + flags) == name,
{
    let entry = name + flags;
    assert forall|i: int| 0 <= i < entry.len() implies entry[i] != ':' by {
        if i >= name.len() {
            assert(entry[i] == flags[i - name.len()]);
        }
    }
    no_separator_no_split(entry, ':');
    if flags.len() == 0 {
        assert(entry =~= name);
        no_separator_no_split(name, '/');
    } else {
        let rest = flags.drop_first();
        assert(entry =~= name + seq!['/'] + rest);
        split_joins(name, rest, '/');
        no_separator_no_split(name, '/');
    }
}

/// After a variable was listed, it is.
pub proof fn a_listed_variable_is_found(wslenv: Seq<char>, name: Seq<char>, flags: Seq<char>)
    requires
        plain_name(name),
        plain_flags(flags),
    ensures
        lists(listing(wslenv, name, flags), name),
{
    if !lists(wslenv, name) {
        let entry = name + flags;
        an_entry_names_its_variable(name, flags);
        if wslenv.len() == 0 {
            assert(split_on(entry, ':')[0] == entry);
        } else {
            split_joins(wslenv, entry, ':');
            assert(wslenv + seq![':'] + name + flags =~= wslenv + seq![':'] + entry);
            let all = split_on(wslenv, ':') + seq![entry];
            assert(all[all.len() - 1] == entry);
            assert(split_on(wslenv + seq![':'] + name + flags, ':')[all.len() - 1] == entry);
        }
    }
}

/// Listing one variable keeps every other one listed.
pub proof fn listing_keeps_the_others(wslenv: Seq<char>, name: Seq<char>, flags: Seq<char>, other: Seq<char>)
    requires
        lists(wslenv, other),
        wslenv.len() > 0,
    ensures
        lists(listing(wslenv, name, flags), other),
{
    if !lists(wslenv, name) {
        let entry = name + flags;
        split_joins(wslenv, entry, ':');
        assert(wslenv + seq![':'] + name + flags =~= wslenv + seq![':'] + entry);
        let before = split_on(wslenv, ':');
        let i = choose|i: int| 0 <= i < before.len() && entry_name(#[trigger] before[i]) == other;
        assert(split_on(wslenv + seq![':'] + name + flags, ':')[i] == before[i]);
    }
}

/// Sharing the environment a second time changes nothing: each variable is
/// listed exactly once.
pub proof fn sharing_twice_is_sharing_once(wslenv: Seq<char>)
    ensures
        shared_env(shared_env(wslenv)) == shared_env(wslenv),
{
    reveal_strlit("ALACRITREE_SOCKET");
    reveal_strlit("ALACRITREE_SESSION_ID");
    reveal_strlit("ALACRITREE_EXE");
    reveal_strlit("");
    reveal_strlit("/p");
    let a = listing(wslenv, SOCKET_ENV@, ""@);
    let b = listing(a, SESSION_ID_ENV@, ""@);
    let c = listing(b, EXE_ENV@, "/p"@);
    a_listed_variable_is_found(wslenv, SOCKET_ENV@, ""@);
    a_listed_variable_is_found(a, SESSION_ID_ENV@, ""@);
    a_listed_variable_is_found(b, EXE_ENV@, "/p"@);
    assert(SOCKET_ENV@.len() > 0);
    assert(wslenv.len() == 0 ==> !lists(wslenv, SOCKET_ENV@)) by {
        if wslenv.len() == 0 {
            assert(split_on(wslenv, ':') =~= seq![Seq::<char>::empty()]);
            assert(entry_name(Seq::<char>::empty()) =~= Seq::<char>::empty());
        }
    }
    listing_keeps_the_others(a, SESSION_ID_ENV@, ""@, SOCKET_ENV@);
    listing_keeps_the_others(b, EXE_ENV@, "/p"@, SOCKET_ENV@);
    listing_keeps_the_others(b, EXE_ENV@, "/p"@, SESSION_ID_ENV@);
}

/// Where the request on a connection's line runs, or why the line asks none.
/// `complaint` is what the reader of the wire's own type has against it.
pub fn dispatch(line: &str, complaint: Option<&str>) -> (r: Result<Route, Unread>)
    ensures
        match request_read(line@, opt_slice(complaint)) {
            Ok(request) => r matches Ok(route) && route.carried() == request && route.lane() == lane_of(request),
            Err(unread) => r matches Err(u) && u@ == unread,
        },
{
    match read_line(line, complaint) {
        Ok(request) => Ok(Route::from(request)),
        Err(unread) => Err(unread),
    }
}

/// What came of handing a request to the app.
#[derive(Debug, PartialEq, Eq)]
pub enum AppReply {
    /// The app no longer takes requests.
    Gone,
    /// It took the request and did not answer in time.
    Silent,
    Answered(IpcResult),
}

/// The answer to a request handed to the app.
pub open spec fn app_answer(reply: AppReply) -> Result<Tree, Seq<char>> {
    match reply {
        AppReply::Gone => Err("alacritree is shutting down"@),
        AppReply::Silent => Err("alacritree did not respond (app busy or closed)"@),
        AppReply::Answered(answer) => answer_view(answer),
    }
}

/// The answer a client gets for a request handed to the app.
pub fn call_app(reply: AppReply) -> (r: IpcResult)
    ensures
        answer_view(r) == app_answer(reply),
        answer_view(r) == (match reply {
            AppReply::Gone => Err("alacritree is shutting down"@),
            AppReply::Silent => Err("alacritree did not respond (app busy or closed)"@),
            AppReply::Answered(answer) => answer_view(answer),
        }),
{
    match reply {
        AppReply::Gone => Err("alacritree is shutting down".to_owned()),
        AppReply::Silent => Err("alacritree did not respond (app busy or closed)".to_owned()),
        AppReply::Answered(answer) => answer,
    }
}

/// What a worktree create reports while it is waited for.
#[derive(Debug, PartialEq, Eq)]
pub enum CreateEvent {
    Step(String),
    /// The new worktree's path, or why there is none.
    Done(Result<String, String>),
    /// The wait ran out.
    Timeout,
    /// The worker went away without reporting.
    Disconnected,
}

/// Why a create gave the connection no worktree.
#[derive(Debug, PartialEq, Eq)]
pub enum CreateError {
    Failed(String),
    /// The budget it exceeded, in milliseconds.
    OverBudget(u64),
    Unreported,
}

/// How a failed create reads.
pub open spec fn create_error_text(error: CreateError) -> Seq<char> {
    match error {
        CreateError::Failed(message) => message@,
        CreateError::OverBudget(budget) => "worktree create exceeded "@ + decimal((budget / 1000) as nat) + "s"@,
        CreateError::Unreported => "the worktree create ended without reporting"@,
    }
}

impl CreateError {
    /// How the failure reads.
    pub fn message(&self) -> (r: String)
        ensures
            r@ == create_error_text(*self),
    {
        match self {
            CreateError::Failed(message) => message.clone(),
            CreateError::OverBudget(budget) => concat3(
                "worktree create exceeded ",
                decimal_text(*budget / 1000).as_str(),
                "s",
            ),
            CreateError::Unreported => "the worktree create ended without reporting".to_owned(),
        }
    }
}

/// A create being waited for.  The deadline is set once: a wait that started
/// over on every step would let a job that keeps reporting hold its worker
/// past any budget.
#[derive(Debug, PartialEq, Eq)]
pub struct CreateDrain {
    pub budget: u64,
    pub deadline: u64,
    pub steps: Vec<String>,
}

/// What a drained event comes to.
#[derive(Debug, PartialEq, Eq)]
pub enum DrainStep {
    /// Wait this many more milliseconds for the next event.
    Wait(u64),
    Finished(Result<(String, Vec<String>), CreateError>),
}

/// The time left until a deadline.
pub open spec fn left_until(deadline: u64, now: u64) -> int {
    if now < deadline {
        deadline - now
    } else {
        0
    }
}

impl CreateDrain {
    /// Starts waiting for a create.
    pub fn new(budget: u64, now: u64) -> (r: Self)
        requires
            now + budget <= u64::MAX,
        ensures
            r.budget == budget,
            r.deadline == now + budget,
            r.steps@ == Seq::<String>::empty(),
    {
        CreateDrain { budget, deadline: now + budget, steps: Vec::new() }
    }

    /// How long the next event may take.
    pub fn left(&self, now: u64) -> (r: u64)
        ensures
            r == left_until(self.deadline, now),
    {
        if now < self.deadline {
            self.deadline - now
        } else {
            0
        }
    }

    /// Takes one event.
    pub fn take(&mut self, event: CreateEvent, now: u64) -> (r: DrainStep)
        ensures
            final(self).budget == old(self).budget,
            final(self).deadline == old(self).deadline,
            match event {
                CreateEvent::Step(step) => final(self).steps@ == old(self).steps@.push(step) && r
                    == DrainStep::Wait(left_until(old(self).deadline, now) as u64),
                CreateEvent::Done(Ok(path)) => r matches DrainStep::Finished(Ok(done)) && done.0 == path
                    && done.1@ == old(self).steps@,
                CreateEvent::Done(Err(message)) => r == DrainStep::Finished(Err(CreateError::Failed(message))),
                CreateEvent::Timeout => r == DrainStep::Finished(Err(CreateError::OverBudget(old(self).budget))),
                CreateEvent::Disconnected => r == DrainStep::Finished(Err(CreateError::Unreported)),
            },
    {
        match event {
            CreateEvent::Step(step) => {
                self.steps.push(step);
                DrainStep::Wait(self.left(now))
            },
            CreateEvent::Done(Ok(path)) => {
                let mut steps: Vec<String> = Vec::new();
                std::mem::swap(&mut steps, &mut self.steps);
                DrainStep::Finished(Ok((path, steps)))
            },
            CreateEvent::Done(Err(message)) => DrainStep::Finished(Err(CreateError::Failed(message))),
            CreateEvent::Timeout => DrainStep::Finished(Err(CreateError::OverBudget(self.budget))),
            CreateEvent::Disconnected => DrainStep::Finished(Err(CreateError::Unreported)),
        }
    }
}

/// However often a create reports, no wait goes past the budget it began with:
/// whenever a step lands, what is left ends at the same moment, and past that
/// moment nothing is left.
pub proof fn a_dribbling_create_ends_at_its_budget(started: u64, budget: u64, now: u64)
    requires
        started + budget <= u64::MAX,
    ensures
        now <= started + budget ==> now + left_until((started + budget) as u64, now) == started + budget,
        now >= started + budget ==> left_until((started + budget) as u64, now) == 0,
{
}

/// The answer to a create.
pub open spec fn created_answer(outcome: Result<(String, Vec<String>), CreateError>) -> Result<Tree, Seq<char>> {
    match outcome {
        Ok((path, steps)) => Ok(
            Tree::Object(
                seq![
                    ("path"@, Tree::Text(path@)),
                    ("steps"@, Tree::Array(steps@.map_values(|s: String| Tree::Text(s@)))),
                ],
            ),
        ),
        Err(error) => Err(create_error_text(error)),
    }
}

/// What a client is told of a create.
pub fn created_reply(outcome: Result<(String, Vec<String>), CreateError>) -> (r: IpcResult)
    ensures
        answer_view(r) == created_answer(outcome),
        answer_view(r) == (match outcome {
            Ok((path, steps)) => Ok(
                Tree::Object(
                    seq![
                        ("path"@, Tree::Text(path@)),
                        ("steps"@, Tree::Array(steps@.map_values(|s: String| Tree::Text(s@)))),
                    ],
                ),
            ),
            Err(error) => Err(create_error_text(error)),
        }),
{
    match outcome {
        Err(error) => Err(error.message()),
        Ok((path, steps)) => {
            let mut items: Vec<Json> = Vec::new();
            let mut i: usize = 0;
            while i < steps.len()
                invariant
                    i <= steps@.len(),
                    items@.len() == i,
                    forall|k: int| 0 <= k < i ==> (#[trigger] items@[k])@ == Tree::Text(steps@[k]@),
                decreases steps@.len() - i,
            {
                items.push(json::text(&steps[i]));
                i += 1;
            }
            assert(trees(items@) =~= steps@.map_values(|s: String| Tree::Text(s@)));
            let mut members: Vec<(String, Json)> = Vec::new();
            members.push(("path".to_owned(), json::text(&path)));
            members.push(("steps".to_owned(), array(items)));
            assert(member_trees(members@) =~= seq![
                ("path"@, Tree::Text(path@)),
                ("steps"@, Tree::Array(steps@.map_values(|s: String| Tree::Text(s@)))),
            ]);
            Ok(object(members))
        },
    }
}

} // verus!

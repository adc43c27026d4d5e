//! What a running app answers a client, and how a client finds one.

use vstd::prelude::*;

use crate::json;
use crate::json::{array, object, text_or_null, Json};
#[allow(unused_imports)]
use crate::json::{
    document, document_text, in_order, lookup, member, member_names, member_trees, nesting,
    read_document, reads_back, text_of, trees, Tree,
};
#[allow(unused_imports)]
use crate::ipc::request::text_tree;
use crate::text::{chars_of, concat2, concat3, decimal_text, has_prefix, same};
#[allow(unused_imports)]
use crate::text::{decimal, opt_text, texts};

verus! {

/// The variable that names the socket to processes running inside a session.
pub const SOCKET_ENV: &'static str = "ALACRITREE_SOCKET";

/// A request's answer.  The wire carries a refusal as plain text, so the error
/// is the message the client shows.
pub type IpcResult = Result<Json, String>;

/// An answer, viewed.
pub open spec fn answer_view(answer: IpcResult) -> Result<Tree, Seq<char>> {
    match answer {
        Ok(value) => Ok(value@),
        Err(message) => Err(message@),
    }
}

/// How a file changed.
#[derive(Debug, Clone, Copy, PartialEq, Eq, Structural)]
pub enum ChangeKind {
    Added,
    Modified,
    Deleted,
    Renamed,
    Untracked,
    Conflicted,
}

/// How a kind of change is spelled.
pub open spec fn change_name(kind: ChangeKind) -> Seq<char> {
    match kind {
        ChangeKind::Added => "added"@,
        ChangeKind::Modified => "modified"@,
        ChangeKind::Deleted => "deleted"@,
        ChangeKind::Renamed => "renamed"@,
        ChangeKind::Untracked => "untracked"@,
        ChangeKind::Conflicted => "conflicted"@,
    }
}

/// How a kind of change is spelled.
pub fn kind_name(kind: ChangeKind) -> (r: &'static str)
    ensures
        r@ == change_name(kind),
{
    match kind {
        ChangeKind::Added => "added",
        ChangeKind::Modified => "modified",
        ChangeKind::Deleted => "deleted",
        ChangeKind::Renamed => "renamed",
        ChangeKind::Untracked => "untracked",
        ChangeKind::Conflicted => "conflicted",
    }
}

/// One changed file.
#[derive(Debug, PartialEq, Eq)]
pub struct FileChange {
    pub path: String,
    pub kind: ChangeKind,
}

/// How many lines of a file differ from the default branch.
#[derive(Debug, PartialEq, Eq)]
pub struct BranchDiff {
    pub path: String,
    pub additions: u64,
    pub deletions: u64,
}

/// A working tree's status.
#[derive(Debug, PartialEq, Eq)]
pub struct GitStatus {
    pub error: Option<String>,
    pub branch: Option<String>,
    pub default_branch: Option<String>,
    pub staged: Vec<FileChange>,
    pub unstaged: Vec<FileChange>,
    pub branch_diff: Vec<BranchDiff>,
}

/// A changed file, as a client is told of it.
pub open spec fn change_tree(change: FileChange) -> Tree {
    Tree::Object(
        seq![("kind"@, Tree::Text(change_name(change.kind))), ("path"@, Tree::Text(change.path@))],
    )
}

/// A file's line counts, as a client is told of them.
pub open spec fn diff_tree(diff: BranchDiff) -> Tree {
    Tree::Object(
        seq![
            ("additions"@, Tree::Unsigned(diff.additions)),
            ("deletions"@, Tree::Unsigned(diff.deletions)),
            ("path"@, Tree::Text(diff.path@)),
        ],
    )
}

/// A status, as a client is told of it.
pub open spec fn status_tree(status: GitStatus) -> Tree {
    match status.error {
        Some(message) => Tree::Object(seq![("error"@, Tree::Text(message@))]),
        None => Tree::Object(
            seq![
                ("branch"@, text_tree(opt_text(status.branch))),
                ("default_branch"@, text_tree(opt_text(status.default_branch))),
                (
                    "diff_vs_default_branch"@,
                    Tree::Array(status.branch_diff@.map_values(|d: BranchDiff| diff_tree(d))),
                ),
                ("staged"@, Tree::Array(status.staged@.map_values(|c: FileChange| change_tree(c)))),
                ("unstaged"@, Tree::Array(status.unstaged@.map_values(|c: FileChange| change_tree(c)))),
            ],
        ),
    }
}

fn changes_json(list: &Vec<FileChange>) -> (r: Json)
    ensures
        r@ == Tree::Array(list@.map_values(|c: FileChange| change_tree(c))),
{
    let mut items: Vec<Json> = Vec::new();
    let mut i: usize = 0;
    while i < list.len()
        invariant
            i <= list@.len(),
            items@.len() == i,
            forall|k: int| 0 <= k < i ==> (#[trigger] items@[k])@ == change_tree(list@[k]),
        decreases list@.len() - i,
    {
        let mut members: Vec<(String, Json)> = Vec::new();
        members.push(("kind".to_owned(), json::text(kind_name(list[i].kind))));
        members.push(("path".to_owned(), json::text(&list[i].path)));
        assert(member_trees(members@) =~= seq![
            ("kind"@, Tree::Text(change_name(list@[i as int].kind))),
            ("path"@, Tree::Text(list@[i as int].path@)),
        ]);
        items.push(object(members));
        i += 1;
    }
    assert(trees(items@) =~= list@.map_values(|c: FileChange| change_tree(c)));
    array(items)
}

fn diffs_json(list: &Vec<BranchDiff>) -> (r: Json)
    ensures
        r@ == Tree::Array(list@.map_values(|d: BranchDiff| diff_tree(d))),
{
    let mut items: Vec<Json> = Vec::new();
    let mut i: usize = 0;
    while i < list.len()
        invariant
            i <= list@.len(),
            items@.len() == i,
            forall|k: int| 0 <= k < i ==> (#[trigger] items@[k])@ == diff_tree(list@[k]),
        decreases list@.len() - i,
    {
        let mut members: Vec<(String, Json)> = Vec::new();
        members.push(("additions".to_owned(), Json::Unsigned(list[i].additions)));
        members.push(("deletions".to_owned(), Json::Unsigned(list[i].deletions)));
        members.push(("path".to_owned(), json::text(&list[i].path)));
        assert(member_trees(members@) =~= seq![
            ("additions"@, Tree::Unsigned(list@[i as int].additions)),
            ("deletions"@, Tree::Unsigned(list@[i as int].deletions)),
            ("path"@, Tree::Text(list@[i as int].path@)),
        ]);
        items.push(object(members));
        i += 1;
    }
    assert(trees(items@) =~= list@.map_values(|d: BranchDiff| diff_tree(d)));
    array(items)
}

/// What a client is told of a working tree's status.
pub fn git_status_json(status: &GitStatus) -> (r: Json)
    ensures
        r@ == status_tree(*status),
{
    let mut members: Vec<(String, Json)> = Vec::new();
    if let Some(message) = &status.error {
        members.push(("error".to_owned(), json::text(message)));
        assert(member_trees(members@) =~= seq![("error"@, Tree::Text(message@))]);
        return object(members);
    }
    members.push(("branch".to_owned(), text_or_null(&status.branch)));
    members.push(("default_branch".to_owned(), text_or_null(&status.default_branch)));
    members.push(("diff_vs_default_branch".to_owned(), diffs_json(&status.branch_diff)));
    members.push(("staged".to_owned(), changes_json(&status.staged)));
    members.push(("unstaged".to_owned(), changes_json(&status.unstaged)));
    assert(member_trees(members@) =~= status_tree(*status)->Object_0);
    object(members)
}

/// Why a request did not produce a reply.
///
/// `NoInstance` is kept apart from every other failure because it is not
/// really an error: it is how a client learns there is no app to talk to, and
/// falls back to serving the request itself.
#[derive(Debug, PartialEq, Eq)]
pub enum SendError {
    NoInstance,
    TimedOut,
    Io(String),
    NoReply(String),
    MalformedReply(String),
    MissingOk,
    /// What the answering side said went wrong.
    Refused(String),
}

/// How a failure to get a reply reads.
pub open spec fn send_error_text(error: SendError) -> Seq<char> {
    match error {
        SendError::NoInstance => "no running alacritree instance found"@,
        SendError::TimedOut => "alacritree did not reply in time"@,
        SendError::Io(e) => e@,
        SendError::NoReply(e) => "no reply from alacritree: "@ + e@,
        SendError::MalformedReply(e) => "malformed IPC reply: "@ + e@,
        SendError::MissingOk => "malformed IPC reply"@,
        SendError::Refused(message) => message@,
    }
}

impl SendError {
    /// How the failure reads.
    pub fn message(&self) -> (r: String)
        ensures
            r@ == send_error_text(*self),
    {
        match self {
            SendError::NoInstance => "no running alacritree instance found".to_owned(),
            SendError::TimedOut => "alacritree did not reply in time".to_owned(),
            SendError::Io(e) => e.clone(),
            SendError::NoReply(e) => concat2("no reply from alacritree: ", e),
            SendError::MalformedReply(e) => concat2("malformed IPC reply: ", e),
            SendError::MissingOk => "malformed IPC reply".to_owned(),
            SendError::Refused(message) => message.clone(),
        }
    }
}

/// The document an answer is framed in.
pub open spec fn reply_tree(answer: Result<Tree, Seq<char>>) -> Tree {
    match answer {
        Ok(value) => Tree::Object(seq![("ok"@, value)]),
        Err(message) => Tree::Object(seq![("error"@, Tree::Text(message))]),
    }
}

/// The document an answer is framed in.
pub fn reply_document(answer: IpcResult) -> (r: Json)
    ensures
        r@ == reply_tree(answer_view(answer)),
{
    let ghost view = answer_view(answer);
    let mut members: Vec<(String, Json)> = Vec::new();
    match answer {
        Ok(value) => members.push(("ok".to_owned(), value)),
        Err(message) => members.push(("error".to_owned(), json::text(&message))),
    }
    assert(member_trees(members@) =~= reply_tree(view)->Object_0);
    object(members)
}

/// The line an answer is sent as, without its newline.
pub fn reply_line(answer: IpcResult) -> (r: String)
    ensures
        r@ == document_text(reply_tree(answer_view(answer))),
        reads_back(reply_tree(answer_view(answer))) ==> document(r@) == Some(reply_tree(answer_view(answer))),
{
    reply_document(answer).line()
}

/// What a reply says: a refusal in words, or what stands under `ok`.
pub open spec fn reply_of(tree: Tree) -> Result<Tree, Option<Seq<char>>> {
    match text_of(member(tree, "error"@)) {
        Some(message) => Err(Some(message)),
        None => match member(tree, "ok"@) {
            Some(value) => Ok(value),
            None => Err(None),
        },
    }
}

/// What a reply line comes to.
pub open spec fn reply_read(line: Seq<char>) -> Result<Tree, Seq<char>> {
    match read_document(line) {
        Err(message) => Err("malformed IPC reply: "@ + message),
        Ok(tree) => match reply_of(tree) {
            Ok(value) => Ok(value),
            Err(Some(message)) => Err(message),
            Err(None) => Err("malformed IPC reply"@),
        },
    }
}

/// Reads the document of a reply.
pub fn reply_in(json: &Json) -> (r: Result<Json, SendError>)
    ensures
        match reply_of(json@) {
            Ok(value) => r matches Ok(v) && v@ == value,
            Err(Some(message)) => r matches Err(SendError::Refused(m)) && m@ == message,
            Err(None) => r matches Err(SendError::MissingOk),
        },
{
    if let Some(message) = json.text_at("error") {
        return Err(SendError::Refused(message));
    }
    match json.get("ok") {
        Some(value) => Ok(value.copy()),
        None => Err(SendError::MissingOk),
    }
}

/// Reads a reply line.
pub fn read_reply(line: &str) -> (r: Result<Json, SendError>)
    ensures
        (match r {
            Ok(value) => Ok(value@),
            Err(error) => Err(send_error_text(error)),
        }) == reply_read(line@),
        read_document(line@) is Err ==> r matches Err(SendError::MalformedReply(_)),
        read_document(line@) is Ok ==> !(r matches Err(SendError::MalformedReply(_))),
{
    match Json::read(line) {
        Err(message) => Err(SendError::MalformedReply(message)),
        Ok(json) => reply_in(&json),
    }
}

/// The client gets what the app answered: a reply is read as the answer it
/// frames.
pub proof fn an_answer_reads_back(answer: Result<Tree, Seq<char>>)
    ensures
        reply_of(reply_tree(answer)) == (match answer {
            Ok(value) => Ok::<Tree, Option<Seq<char>>>(value),
            Err(message) => Err(Some(message)),
        }),
{
    reveal_strlit("ok");
    reveal_strlit("error");
    assert("ok"@.len() != "error"@.len());
    reveal_with_fuel(lookup, 3);
}

/// An answer comes back from its line as it was framed, where the value it
/// carries does.
pub proof fn an_answer_crosses_the_wire(answer: Result<Tree, Seq<char>>)
    requires
        answer matches Ok(value) ==> in_order(value) && nesting(value, 99),
    ensures
        reads_back(reply_tree(answer)),
{
    let members = reply_tree(answer)->Object_0;
    assert(member_names(members).len() == 1);
    assert forall|i: int| 0 <= i < members.len() implies in_order((#[trigger] members[i]).1) && nesting(
        members[i].1,
        99,
    ) by {}
}

/// Whether a file is named as a socket is.
pub open spec fn socket_named(name: Seq<char>) -> bool {
    "alacritree-"@.is_prefix_of(name) && ".sock"@.is_suffix_of(name)
}

/// Whether a file is named as a socket is.
pub fn is_socket_name(name: &str) -> (r: bool)
    ensures
        r == socket_named(name@),
{
    let chars = chars_of(name);
    has_prefix(&chars, "alacritree-") && crate::text::has_suffix(&chars, ".sock")
}

/// A file in the socket directory.
#[derive(Debug, PartialEq, Eq)]
pub struct SocketEntry {
    pub path: String,
    pub name: String,
}

/// The paths of the files named as sockets are, in the order listed.
pub open spec fn socket_paths(entries: Seq<SocketEntry>) -> Seq<Seq<char>>
    decreases entries.len(),
{
    if entries.len() == 0 {
        Seq::empty()
    } else {
        let front = socket_paths(entries.drop_last());
        if socket_named(entries.last().name@) {
            front.push(entries.last().path@)
        } else {
            front
        }
    }
}

fn named_sockets(entries: &Vec<SocketEntry>) -> (r: Vec<String>)
    ensures
        texts(r@) == socket_paths(entries@),
{
    let ghost all = entries@;
    let mut out: Vec<String> = Vec::new();
    let mut i: usize = 0;
    proof {
        assert(all.take(0) =~= Seq::<SocketEntry>::empty());
        assert(texts(out@) =~= Seq::<Seq<char>>::empty());
    }
    while i < entries.len()
        invariant
            i <= entries@.len(),
            all == entries@,
            texts(out@) == socket_paths(all.take(i as int)),
        decreases entries@.len() - i,
    {
        assert(all.take(i + 1).drop_last() =~= all.take(i as int));
        assert(all.take(i + 1).last() == all[i as int]);
        if is_socket_name(&entries[i].name) {
            let ghost before = out@;
            out.push(entries[i].path.clone());
            assert(texts(out@) =~= texts(before).push(all[i as int].path@));
        }
        i += 1;
    }
    assert(all.take(all.len() as int) =~= all);
    out
}

/// Where a client's search for a running app stands.
#[derive(Debug, PartialEq, Eq)]
pub enum HuntStage {
    /// The path it was given is tried, and no other.
    Given,
    /// The environment's path is tried, before the socket directory.
    Advertised,
    /// The socket directory is being listed.
    Listing,
    /// A socket found there is tried, and these after it.
    Trying { path: String, rest: Vec<String> },
    Over,
}

/// Where a search stands, with the characters of its paths.
pub enum HuntView {
    Given,
    Advertised,
    Listing,
    Trying { path: Seq<char>, rest: Seq<Seq<char>> },
    Over,
}

impl View for HuntStage {
    type V = HuntView;

    open spec fn view(&self) -> HuntView {
        match self {
            HuntStage::Given => HuntView::Given,
            HuntStage::Advertised => HuntView::Advertised,
            HuntStage::Listing => HuntView::Listing,
            HuntStage::Trying { path, rest } => HuntView::Trying { path: path@, rest: texts(rest@) },
            HuntStage::Over => HuntView::Over,
        }
    }
}

/// What came of the last step of a search.
#[derive(Debug, PartialEq, Eq)]
pub enum HuntEvent {
    Connected,
    /// Nothing is listening there.
    Refused,
    Listed(Vec<SocketEntry>),
    Unlisted,
}

/// What a search does next.
#[derive(Debug, PartialEq, Eq)]
pub enum HuntStep {
    Connect(String),
    List,
    Found,
    NotFound,
}

/// What a search does next, with the characters of its path.
pub enum HuntStepView {
    Connect(Seq<char>),
    List,
    Found,
    NotFound,
}

impl View for HuntStep {
    type V = HuntStepView;

    open spec fn view(&self) -> HuntStepView {
        match self {
            HuntStep::Connect(path) => HuntStepView::Connect(path@),
            HuntStep::List => HuntStepView::List,
            HuntStep::Found => HuntStepView::Found,
            HuntStep::NotFound => HuntStepView::NotFound,
        }
    }
}

/// How a search begins: at the path it was given, else at the environment's,
/// else in the socket directory.
pub open spec fn hunt_start(given: Option<Seq<char>>, advertised: Option<Seq<char>>) -> (HuntView, HuntStepView) {
    match (given, advertised) {
        (Some(path), _) => (HuntView::Given, HuntStepView::Connect(path)),
        (None, Some(path)) => (HuntView::Advertised, HuntStepView::Connect(path)),
        (None, None) => (HuntView::Listing, HuntStepView::List),
    }
}

/// Trying the sockets of the directory in turn.
pub open spec fn hunt_try(rest: Seq<Seq<char>>) -> (HuntView, HuntStepView) {
    if rest.len() == 0 {
        (HuntView::Over, HuntStepView::NotFound)
    } else {
        (
            HuntView::Trying { path: rest[0], rest: rest.drop_first() },
            HuntStepView::Connect(rest[0]),
        )
    }
}

/// What a search goes on to, and the dead socket it removes on the way, where
/// the event belongs to the stage.
pub open spec fn hunt_next(stage: HuntView, event: HuntEvent) -> Option<
    (HuntView, Option<Seq<char>>, HuntStepView),
> {
    match (stage, event) {
        (HuntView::Given, HuntEvent::Refused) => Some((HuntView::Over, None, HuntStepView::NotFound)),
        (HuntView::Advertised, HuntEvent::Refused) => Some((HuntView::Listing, None, HuntStepView::List)),
        (HuntView::Listing, HuntEvent::Listed(entries)) => {
            let (after, step) = hunt_try(socket_paths(entries@));
            Some((after, None, step))
        },
        (HuntView::Listing, HuntEvent::Unlisted) => Some((HuntView::Over, None, HuntStepView::NotFound)),
        (HuntView::Trying { path, rest }, HuntEvent::Refused) => {
            let (after, step) = hunt_try(rest);
            Some((after, Some(path), step))
        },
        (HuntView::Given, HuntEvent::Connected) | (HuntView::Advertised, HuntEvent::Connected) | (
            HuntView::Trying { .. },
            HuntEvent::Connected,
        ) => Some((HuntView::Over, None, HuntStepView::Found)),
        _ => None,
    }
}

/// A client's search for a running app.
#[derive(Debug, PartialEq, Eq)]
pub struct SocketHunt {
    pub stage: HuntStage,
}

/// Begins the search: the path the client was given, then the environment's,
/// then the socket directory.
pub fn find_socket(given: Option<String>, advertised: Option<String>) -> (r: (SocketHunt, HuntStep))
    ensures
        (r.0.stage@, r.1@) == hunt_start(opt_text(given), opt_text(advertised)),
{
    match given {
        Some(path) => (SocketHunt { stage: HuntStage::Given }, HuntStep::Connect(path)),
        None => match advertised {
            Some(path) => (SocketHunt { stage: HuntStage::Advertised }, HuntStep::Connect(path)),
            None => (SocketHunt { stage: HuntStage::Listing }, HuntStep::List),
        },
    }
}

fn try_next(mut rest: Vec<String>) -> (r: (HuntStage, HuntStep))
    ensures
        (r.0@, r.1@) == hunt_try(texts(rest@)),
{
    if rest.len() == 0 {
        return (HuntStage::Over, HuntStep::NotFound);
    }
    let ghost all = texts(rest@);
    let path = rest.remove(0);
    assert(path@ == all[0]);
    assert(texts(rest@) =~= all.drop_first());
    (HuntStage::Trying { path: path.clone(), rest }, HuntStep::Connect(path))
}

impl SocketHunt {
    /// Takes what came of the last step.  Gives the socket to remove, if any,
    /// and the next step: a socket nothing listens on was left behind by a
    /// process that crashed.  An event that does not belong to the stage
    /// changes nothing.
    pub fn next(&mut self, event: HuntEvent) -> (r: Option<(Option<String>, HuntStep)>)
        ensures
            match hunt_next(old(self).stage@, event) {
                Some((stage, stale, step)) => {
                    &&& final(self).stage@ == stage
                    &&& r matches Some(s)
                    &&& opt_text(s.0) == stale
                    &&& s.1@ == step
                },
                None => final(self).stage == old(self).stage && r is None,
            },
    {
        let mut stage = HuntStage::Over;
        std::mem::swap(&mut stage, &mut self.stage);
        let (after, stale, step) = match (stage, event) {
            (HuntStage::Given, HuntEvent::Refused) => (HuntStage::Over, None, HuntStep::NotFound),
            (HuntStage::Advertised, HuntEvent::Refused) => (HuntStage::Listing, None, HuntStep::List),
            (HuntStage::Listing, HuntEvent::Listed(entries)) => {
                let (after, step) = try_next(named_sockets(&entries));
                (after, None, step)
            },
            (HuntStage::Listing, HuntEvent::Unlisted) => (HuntStage::Over, None, HuntStep::NotFound),
            (HuntStage::Trying { path, rest }, HuntEvent::Refused) => {
                let (after, step) = try_next(rest);
                (after, Some(path), step)
            },
            (HuntStage::Given, HuntEvent::Connected) => (HuntStage::Over, None, HuntStep::Found),
            (HuntStage::Advertised, HuntEvent::Connected) => (HuntStage::Over, None, HuntStep::Found),
            (HuntStage::Trying { .. }, HuntEvent::Connected) => (HuntStage::Over, None, HuntStep::Found),
            (stage, _) => {
                self.stage = stage;
                return None;
            },
        };
        self.stage = after;
        Some((stale, step))
    }
}

/// A search removes a socket only once nothing answered on it, and only one
/// it found in the socket directory.
pub proof fn only_a_dead_socket_is_removed(stage: HuntView, event: HuntEvent)
    ensures
        hunt_next(stage, event) matches Some((_, Some(path), _)) ==> {
            &&& event is Refused
            &&& stage matches HuntView::Trying { path: tried, .. }
            &&& tried == path
        },
{
}

/// A search that was given a path tries that path and no other.
pub proof fn a_given_path_is_the_only_one_tried(event: HuntEvent)
    ensures
        hunt_next(HuntView::Given, event) matches Some((stage, stale, step)) ==> {
            &&& stage is Over
            &&& stale is None
            &&& step is Found || step is NotFound
        },
{
}

/// The file name of the socket of a process.
pub open spec fn socket_name(pid: nat) -> Seq<char> {
    "alacritree-"@ + decimal(pid) + ".sock"@
}

/// The file name of the socket of a process.
pub fn socket_file(pid: u32) -> (r: String)
    ensures
        r@ == socket_name(pid as nat),
{
    concat3("alacritree-", decimal_text(pid as u64).as_str(), ".sock")
}

/// A socket is found by its own name.
pub proof fn a_socket_is_named_as_one(pid: nat)
    ensures
        socket_named(socket_name(pid)),
{
    let name = socket_name(pid);
    let tail = ".sock"@;
    assert(name.subrange(name.len() - tail.len(), name.len() as int) =~= tail);
    assert(name.subrange(0, "alacritree-"@.len() as int) =~= "alacritree-"@);
}

/// What the runtime directory is called.
pub open spec fn runtime_dir_of(xdg: Option<Seq<char>>, uid: Option<nat>) -> Option<Seq<char>> {
    match xdg {
        Some(dir) if dir.len() > 0 => Some(dir),
        _ => match uid {
            Some(uid) => Some("/run/user/"@ + decimal(uid)),
            None => None,
        },
    }
}

/// Resolve the runtime directory even when a GUI launcher strips the XDG
/// environment.  Linux defines the default as `/run/user/$UID`, so there `uid`
/// is the effective user; elsewhere it is `None`.
pub fn runtime_dir(xdg_runtime_dir: Option<&str>, uid: Option<u32>) -> (r: Option<String>)
    ensures
        opt_text(r) == runtime_dir_of(
            match xdg_runtime_dir {
                Some(dir) => Some(dir@),
                None => None,
            },
            match uid {
                Some(uid) => Some(uid as nat),
                None => None,
            },
        ),
{
    if let Some(dir) = xdg_runtime_dir {
        if !same(dir, "") {
            proof {
                reveal_strlit("");
                if dir@.len() == 0 {
                    assert(dir@ =~= ""@);
                }
            }
            return Some(dir.to_owned());
        }
        proof {
            reveal_strlit("");
        }
    }
    match uid {
        Some(uid) => Some(concat2("/run/user/", decimal_text(uid as u64).as_str())),
        None => None,
    }
}

} // verus!

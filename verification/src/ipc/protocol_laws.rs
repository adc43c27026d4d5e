//! What the documents that answer a request say, and how an instance is found.

use vstd::prelude::*;

#[allow(unused_imports)]
use crate::ipc::protocol::{
    change_tree, diff_tree, hunt_next, hunt_start, reply_read, reply_tree, runtime_dir_of, send_error_text,
    socket_name, socket_named, socket_paths, status_tree, BranchDiff, FileChange, GitStatus, HuntEvent,
    HuntStepView, HuntView, SendError, SocketEntry,
};
#[allow(unused_imports)]
use crate::json::{lookup, member, read_document, Tree};
#[allow(unused_imports)]
use crate::text::decimal;

verus! {

proof fn status_names_differ()
    ensures
        "branch"@ != "default_branch"@,
        "branch"@ != "diff_vs_default_branch"@,
        "branch"@ != "staged"@,
        "branch"@ != "unstaged"@,
        "default_branch"@ != "diff_vs_default_branch"@,
        "default_branch"@ != "staged"@,
        "default_branch"@ != "unstaged"@,
        "diff_vs_default_branch"@ != "staged"@,
        "diff_vs_default_branch"@ != "unstaged"@,
        "staged"@ != "unstaged"@,
        "kind"@ != "path"@,
        "additions"@ != "deletions"@,
        "additions"@ != "path"@,
        "deletions"@ != "path"@,
        "error"@ != "branch"@,
        "error"@ != "default_branch"@,
        "error"@ != "diff_vs_default_branch"@,
        "error"@ != "staged"@,
        "error"@ != "unstaged"@,
        "ok"@ != "error"@,
{
    reveal_strlit("branch");
    reveal_strlit("default_branch");
    reveal_strlit("diff_vs_default_branch");
    reveal_strlit("staged");
    reveal_strlit("unstaged");
    reveal_strlit("kind");
    reveal_strlit("path");
    reveal_strlit("additions");
    reveal_strlit("deletions");
    reveal_strlit("error");
    reveal_strlit("ok");
    assert("branch"@.len() != "default_branch"@.len());
    assert("branch"@.len() != "diff_vs_default_branch"@.len());
    assert("branch"@[0] != "staged"@[0]);
    assert("branch"@.len() != "unstaged"@.len());
    assert("default_branch"@.len() != "diff_vs_default_branch"@.len());
    assert("default_branch"@.len() != "staged"@.len());
    assert("default_branch"@.len() != "unstaged"@.len());
    assert("diff_vs_default_branch"@.len() != "staged"@.len());
    assert("diff_vs_default_branch"@.len() != "unstaged"@.len());
    assert("staged"@.len() != "unstaged"@.len());
    assert("kind"@[0] != "path"@[0]);
    assert("additions"@[0] != "deletions"@[0]);
    assert("additions"@.len() != "path"@.len());
    assert("deletions"@.len() != "path"@.len());
    assert("error"@.len() != "branch"@.len());
    assert("error"@.len() != "default_branch"@.len());
    assert("error"@.len() != "diff_vs_default_branch"@.len());
    assert("error"@.len() != "staged"@.len());
    assert("error"@.len() != "unstaged"@.len());
    assert("ok"@.len() != "error"@.len());
}

/// A change is named by the word for it: "added", "modified", "deleted",
/// "renamed", "untracked" or "conflicted".
pub proof fn a_change_is_named_by_its_word(change: FileChange)
    ensures
        member(change_tree(change), "path"@) == Some(Tree::Text(change.path@)),
        member(change_tree(change), "kind"@) matches Some(Tree::Text(word)) && {
            &&& change.kind is Added ==> word == "added"@
            &&& change.kind is Modified ==> word == "modified"@
            &&& change.kind is Deleted ==> word == "deleted"@
            &&& change.kind is Renamed ==> word == "renamed"@
            &&& change.kind is Untracked ==> word == "untracked"@
            &&& change.kind is Conflicted ==> word == "conflicted"@
        },
{
    status_names_differ();
    reveal_with_fuel(lookup, 4);
}

/// A file that differs from the default branch is told with its path and with
/// how many lines came and went.
pub proof fn a_difference_counts_its_lines(diff: BranchDiff)
    ensures
        member(diff_tree(diff), "path"@) == Some(Tree::Text(diff.path@)),
        member(diff_tree(diff), "additions"@) == Some(Tree::Unsigned(diff.additions)),
        member(diff_tree(diff), "deletions"@) == Some(Tree::Unsigned(diff.deletions)),
{
    status_names_differ();
    reveal_with_fuel(lookup, 5);
}

/// A status tells the branch and the default branch, null where there is none,
/// and lists the staged and the unstaged changes and the differences from the
/// default branch, each change once and in order.
pub proof fn a_status_tells_its_parts(status: GitStatus)
    requires
        status.error is None,
    ensures
        ({
            let told = status_tree(status);
            &&& status.branch is Some ==> member(told, "branch"@) == Some(Tree::Text(status.branch->0@))
            &&& status.branch is None ==> member(told, "branch"@) == Some(Tree::Null)
            &&& status.default_branch is Some ==> member(told, "default_branch"@) == Some(
                Tree::Text(status.default_branch->0@),
            )
            &&& status.default_branch is None ==> member(told, "default_branch"@) == Some(Tree::Null)
            &&& member(told, "staged"@) matches Some(Tree::Array(items)) && items.len() == status.staged@.len()
                && forall|i: int|
                0 <= i < items.len() ==> #[trigger] items[i] == change_tree(status.staged@[i])
            &&& member(told, "unstaged"@) matches Some(Tree::Array(items)) && items.len() == status.unstaged@.len()
                && forall|i: int|
                0 <= i < items.len() ==> #[trigger] items[i] == change_tree(status.unstaged@[i])
            &&& member(told, "diff_vs_default_branch"@) matches Some(Tree::Array(items)) && items.len()
                == status.branch_diff@.len() && forall|i: int|
                0 <= i < items.len() ==> #[trigger] items[i] == diff_tree(status.branch_diff@[i])
            &&& member(told, "error"@) is None
        }),
{
    status_names_differ();
    reveal_with_fuel(lookup, 7);
}

/// A status that could not be had tells why, and nothing else.
pub proof fn a_status_that_failed_tells_why(status: GitStatus)
    requires
        status.error is Some,
    ensures
        status_tree(status) matches Tree::Object(members) && members.len() == 1 && members[0] == (
            "error"@,
            Tree::Text(status.error->0@),
        ),
{
}

/// An answer is one member: `ok` with the value, or `error` with the words.
pub proof fn an_answer_is_ok_or_error(answer: Result<Tree, Seq<char>>)
    ensures
        match answer {
            Ok(value) => reply_tree(answer) == Tree::Object(seq![("ok"@, value)]),
            Err(words) => reply_tree(answer) == Tree::Object(seq![("error"@, Tree::Text(words))]),
        },
{
}

/// A reply with a text under `error` is that refusal, whatever else it holds;
/// one without is the value under `ok`, and neither is no reply.
pub proof fn a_reply_is_read_by_its_members(line: Seq<char>, tree: Tree)
    requires
        read_document(line) == Ok::<Tree, Seq<char>>(tree),
    ensures
        member(tree, "error"@) matches Some(Tree::Text(words)) ==> reply_read(line) == Err::<Tree, Seq<char>>(words),
        !(member(tree, "error"@) matches Some(Tree::Text(_))) ==> {
            &&& member(tree, "ok"@) matches Some(value) ==> reply_read(line) == Ok::<Tree, Seq<char>>(value)
            &&& member(tree, "ok"@) is None ==> reply_read(line) == Err::<Tree, Seq<char>>("malformed IPC reply"@)
        },
{
}

/// A line that is no document is a malformed reply, and says what is wrong.
pub proof fn a_line_that_is_no_document_is_malformed(line: Seq<char>, words: Seq<char>)
    requires
        read_document(line) == Err::<Tree, Seq<char>>(words),
    ensures
        reply_read(line) == Err::<Tree, Seq<char>>("malformed IPC reply: "@ + words),
{
}

/// Why a request could not be sent, in words.
pub proof fn a_failure_to_send_is_told(error: SendError)
    ensures
        match error {
            SendError::NoInstance => send_error_text(error) == "no running alacritree instance found"@,
            SendError::TimedOut => send_error_text(error) == "alacritree did not reply in time"@,
            SendError::Io(words) => send_error_text(error) == words@,
            SendError::NoReply(words) => send_error_text(error) == "no reply from alacritree: "@ + words@,
            SendError::MalformedReply(words) => send_error_text(error) == "malformed IPC reply: "@ + words@,
            SendError::MissingOk => send_error_text(error) == "malformed IPC reply"@,
            SendError::Refused(words) => send_error_text(error) == words@,
        },
{
}

/// A socket is named after the process: `alacritree-`, its number, `.sock`.
pub proof fn a_socket_is_named_after_its_process(pid: nat)
    ensures
        socket_name(pid) == "alacritree-"@ + decimal(pid) + ".sock"@,
{
}

/// A file is taken for a socket exactly where its name begins with
/// `alacritree-` and ends with `.sock`.
pub proof fn a_socket_is_told_by_its_name(name: Seq<char>)
    ensures
        socket_named(name) <==> "alacritree-"@.is_prefix_of(name) && ".sock"@.is_suffix_of(name),
{
}

/// The sockets of a directory are the paths of the files named as sockets, in
/// the order they were listed in: a listing with one more entry has that one's
/// path last, if it is named as one.
pub proof fn the_sockets_of_a_listing(entries: Seq<SocketEntry>, last: SocketEntry)
    ensures
        socket_paths(Seq::empty()) == Seq::<Seq<char>>::empty(),
        socket_paths(entries.push(last)) == if socket_named(last.name@) {
            socket_paths(entries).push(last.path@)
        } else {
            socket_paths(entries)
        },
{
    assert(entries.push(last).drop_last() =~= entries);
}

/// Runtime files go where XDG says, unless that is empty, else under the
/// user's number in `/run/user`, else nowhere.
pub proof fn where_runtime_files_go(xdg: Option<Seq<char>>, uid: Option<nat>)
    ensures
        xdg matches Some(dir) ==> dir.len() > 0 ==> runtime_dir_of(xdg, uid) == Some(dir),
        xdg is None || xdg->0.len() == 0 ==> {
            &&& uid matches Some(n) ==> runtime_dir_of(xdg, uid) == Some("/run/user/"@ + decimal(n))
            &&& uid is None ==> runtime_dir_of(xdg, uid) is None
        },
{
}

/// The hunt for an instance starts at the path that was given, else at the one
/// the environment advertises, else with a listing.
pub proof fn a_hunt_starts_where_it_is_told(given: Option<Seq<char>>, advertised: Option<Seq<char>>)
    ensures
        given matches Some(path) ==> hunt_start(given, advertised).1 == HuntStepView::Connect(path),
        given is None ==> {
            &&& advertised matches Some(path) ==> hunt_start(given, advertised).1 == HuntStepView::Connect(path)
            &&& advertised is None ==> hunt_start(given, advertised).1 == HuntStepView::List
        },
{
}

/// A refusal at a given path ends the hunt without an instance; one at an
/// advertised path goes on to the listing; one at a listed socket takes the
/// socket away and goes on to the next, and ends without an instance after the
/// last. Nothing else takes a socket away.
pub proof fn a_refusal_goes_on_to_the_next(path: Seq<char>, rest: Seq<Seq<char>>)
    ensures
        hunt_next(HuntView::Given, HuntEvent::Refused) == Some(
            (HuntView::Over, None::<Seq<char>>, HuntStepView::NotFound),
        ),
        hunt_next(HuntView::Advertised, HuntEvent::Refused) == Some(
            (HuntView::Listing, None::<Seq<char>>, HuntStepView::List),
        ),
        rest.len() > 0 ==> hunt_next(HuntView::Trying { path, rest }, HuntEvent::Refused) == Some(
            (
                HuntView::Trying { path: rest[0], rest: rest.subrange(1, rest.len() as int) },
                Some(path),
                HuntStepView::Connect(rest[0]),
            ),
        ),
        rest.len() == 0 ==> hunt_next(HuntView::Trying { path, rest }, HuntEvent::Refused) == Some(
            (HuntView::Over, Some(path), HuntStepView::NotFound),
        ),
        hunt_next(HuntView::Listing, HuntEvent::Unlisted) == Some(
            (HuntView::Over, None::<Seq<char>>, HuntStepView::NotFound),
        ),
{
    if rest.len() > 0 {
        assert(rest.drop_first() =~= rest.subrange(1, rest.len() as int));
    }
}

/// A connection ends the hunt with an instance, wherever it was tried.
pub proof fn a_connection_ends_the_hunt(path: Seq<char>, rest: Seq<Seq<char>>)
    ensures
        ({
            let found = Some((HuntView::Over, None::<Seq<char>>, HuntStepView::Found));
            &&& hunt_next(HuntView::Given, HuntEvent::Connected) == found
            &&& hunt_next(HuntView::Advertised, HuntEvent::Connected) == found
            &&& hunt_next(HuntView::Trying { path, rest }, HuntEvent::Connected) == found
        }),
{
}

/// A listing is tried socket by socket from its first, and ends the hunt where
/// it holds none.
pub proof fn a_listing_is_tried_from_its_first(entries: Vec<SocketEntry>)
    ensures
        ({
            let sockets = socket_paths(entries@);
            &&& sockets.len() == 0 ==> hunt_next(HuntView::Listing, HuntEvent::Listed(entries)) == Some(
                (HuntView::Over, None::<Seq<char>>, HuntStepView::NotFound),
            )
            &&& sockets.len() > 0 ==> hunt_next(HuntView::Listing, HuntEvent::Listed(entries)) == Some(
                (
                    HuntView::Trying { path: sockets[0], rest: sockets.subrange(1, sockets.len() as int) },
                    None::<Seq<char>>,
                    HuntStepView::Connect(sockets[0]),
                ),
            )
        }),
{
    let sockets = socket_paths(entries@);
    if sockets.len() > 0 {
        assert(sockets.drop_first() =~= sockets.subrange(1, sockets.len() as int));
    }
}

} // verus!

//! What attaching, focusing and closing come to in the host's queue.

use vstd::prelude::*;

#[allow(unused_imports)]
use crate::herdr::endpoints::{side_at, side_at_is_first};
#[allow(unused_imports)]
use crate::herdr::host::{
    answering, as_herdr_key, as_pane_key, attach_at, attach_queued, focus_goal, found, gesture_noted, gone_at, kept,
    landing_side, pane_members, reconnecting, session_of, side_launch, HostState, PendingAttachView,
};
#[allow(unused_imports)]
use crate::herdr::model::HerdrKeyView;
#[allow(unused_imports)]
use crate::herdr::poll::{terminal_at, EndpointState, Landed, Link, PaneMetadata, Read};
#[allow(unused_imports)]
use crate::herdr::view::{SessionId, ViewActionView};
#[allow(unused_imports)]
use crate::json::{lookup, member, Tree};
#[allow(unused_imports)]
use crate::multiplexer::listing::listed_at_is_first;
#[allow(unused_imports)]
use crate::multiplexer::model::{
    AttachFocus, AttachRequestView, Launch, LaunchView, MultiplexerKind, PaneKeyView, PaneTargetView, PaneView,
};
#[allow(unused_imports)]
use crate::side::{shell_line, side_name, SideView};
#[allow(unused_imports)]
use crate::text::joined;

verus! {

proof fn the_first_attach_is_found(list: Seq<PendingAttachView>, key: PaneKeyView)
    ensures
        match attach_at(list, key) {
            Some(at) => 0 <= at < list.len() && list[at].key == key && forall|i: int|
                0 <= i < at ==> (#[trigger] list[i]).key != key,
            None => forall|i: int| 0 <= i < list.len() ==> (#[trigger] list[i]).key != key,
        },
    decreases list.len(),
{
    if list.len() > 0 {
        let front = list.drop_last();
        the_first_attach_is_found(front, key);
        assert forall|i: int| 0 <= i < front.len() implies #[trigger] list[i] == front[i] by {}
    }
}

/// A first request for a pane goes to the end of the line, not yet started.
pub proof fn a_first_request_goes_to_the_end(
    list: Seq<PendingAttachView>,
    key: PaneKeyView,
    target: PaneTargetView,
    request: AttachRequestView,
)
    requires
        forall|i: int| 0 <= i < list.len() ==> (#[trigger] list[i]).key != key,
    ensures
        attach_queued(list, key, target, request) == list.push(
            PendingAttachView { started: false, target, key, request },
        ),
{
    the_first_attach_is_found(list, key);
}

/// A request for a pane in line joins it where it stands: its waiters come
/// after those already there, it takes the focus if either asks for that, and
/// its workspace and previous name are those of the first. It starts over
/// exactly where the focus is newly asked for. The others stay.
pub proof fn a_second_request_joins_the_first(
    list: Seq<PendingAttachView>,
    key: PaneKeyView,
    target: PaneTargetView,
    request: AttachRequestView,
    at: int,
)
    requires
        0 <= at < list.len(),
        list[at].key == key,
        forall|i: int| 0 <= i < at ==> (#[trigger] list[i]).key != key,
    ensures
        ({
            let after = attach_queued(list, key, target, request);
            let was = list[at];
            let later = after[at];
            &&& after.len() == list.len()
            &&& forall|i: int| 0 <= i < list.len() && i != at ==> #[trigger] after[i] == list[i]
            &&& later.key == key && later.target == was.target
            &&& later.request.waiters == was.request.waiters + request.waiters
            &&& later.request.focus == AttachFocus::Take <==> was.request.focus == AttachFocus::Take || request.focus
                == AttachFocus::Take
            &&& later.request.workspace == was.request.workspace && later.request.previous == was.request.previous
            &&& later.started <==> was.started && (request.focus != AttachFocus::Take || was.request.focus
                == AttachFocus::Take)
        }),
{
    the_first_attach_is_found(list, key);
}

/// A side whose link is down is tried at once where a pane of it is asked for;
/// every other side, and a link that is not down, stay as they are.
pub proof fn an_attach_wakes_its_side(caches: Seq<EndpointState>, side: SideView, now: u64, i: int)
    requires
        0 <= i < caches.len(),
    ensures
        reconnecting(caches, side, now).len() == caches.len(),
        side_at(caches, side) != Some(i) ==> reconnecting(caches, side, now)[i] == caches[i],
        side_at(caches, side) == Some(i) ==> match caches[i].link {
            Link::Down { failures, .. } => reconnecting(caches, side, now)[i] == (EndpointState {
                link: Link::Down { failures, retry_at: now },
                ..caches[i]
            }),
            _ => reconnecting(caches, side, now)[i] == caches[i],
        },
{
    side_at_is_first(caches, side);
}

/// A gesture that herdr did not answer starts its side's link over at once,
/// unless the side was given up on; any other outcome leaves every side alone.
pub proof fn an_unanswered_gesture_starts_its_side_over(
    caches: Seq<EndpointState>,
    side: SideView,
    message: Option<Seq<char>>,
    now: u64,
    i: int,
)
    requires
        0 <= i < caches.len(),
    ensures
        ({
            let unanswered = message is Some && "herdr did not answer"@.is_prefix_of(message->0);
            let after = gesture_noted(caches, side, message, now);
            &&& after.len() == caches.len()
            &&& !unanswered ==> after == caches
            &&& side_at(caches, side) != Some(i) ==> after[i] == caches[i]
            &&& unanswered && side_at(caches, side) == Some(i) ==> {
                &&& caches[i].link is Abandoned ==> after[i] == caches[i]
                &&& !(caches[i].link is Abandoned) ==> after[i] == (EndpointState {
                    status: None,
                    link: Link::Down { failures: 0, retry_at: now },
                    ..caches[i]
                })
            }
        }),
{
    side_at_is_first(caches, side);
}

/// A pane is the first row of its terminal on its side.
pub proof fn a_pane_is_found_on_its_side(caches: Seq<EndpointState>, side: SideView, terminal_id: Seq<char>, at: int, i: int)
    requires
        side_at(caches, side) == Some(at),
    ensures
        0 <= at < caches.len(),
        caches[at].side == side,
        0 <= i < caches[at].agents.len() && caches[at].agents[i].terminal_id@ == terminal_id && (forall|k: int|
            0 <= k < i ==> (#[trigger] caches[at].agents[k]).terminal_id@ != terminal_id) ==> found(
            caches,
            side,
            terminal_id,
        ) == Some(caches[at].agents[i]),
        (forall|k: int| 0 <= k < caches[at].agents.len() ==> (#[trigger] caches[at].agents[k]).terminal_id@ != terminal_id)
            ==> found(caches, side, terminal_id) is None,
{
    side_at_is_first(caches, side);
    listed_at_is_first(caches[at].agents, terminal_id);
}

proof fn the_first_kept_is_found(list: Seq<PaneMetadata>, terminal_id: Seq<char>)
    ensures
        match terminal_at(list, terminal_id) {
            Some(at) => 0 <= at < list.len() && list[at].agent.terminal_id@ == terminal_id && forall|i: int|
                0 <= i < at ==> (#[trigger] list[i]).agent.terminal_id@ != terminal_id,
            None => forall|i: int| 0 <= i < list.len() ==> (#[trigger] list[i]).agent.terminal_id@ != terminal_id,
        },
    decreases list.len(),
{
    if list.len() > 0 {
        let front = list.drop_last();
        the_first_kept_is_found(front, terminal_id);
        assert forall|i: int| 0 <= i < front.len() implies #[trigger] list[i] == front[i] by {}
    }
}

/// What is kept of a pane is the first of its terminal on its side.
pub proof fn what_is_kept_of_a_pane(caches: Seq<EndpointState>, side: SideView, terminal_id: Seq<char>, at: int, i: int)
    requires
        side_at(caches, side) == Some(at),
    ensures
        0 <= i < caches[at].attachment.len() && caches[at].attachment[i].agent.terminal_id@ == terminal_id && (forall|
            k: int,
        |
            0 <= k < i ==> (#[trigger] caches[at].attachment[k]).agent.terminal_id@ != terminal_id) ==> kept(
            caches,
            side,
            terminal_id,
        ) == Some(caches[at].attachment[i]),
        (forall|k: int|
            0 <= k < caches[at].attachment.len() ==> (#[trigger] caches[at].attachment[k]).agent.terminal_id@
                != terminal_id) ==> kept(caches, side, terminal_id) is None,
{
    side_at_is_first(caches, side);
    the_first_kept_is_found(caches[at].attachment, terminal_id);
}

/// A pane that is focused is where its row says, else where what is kept of an
/// attached one says, and nowhere without either.
pub proof fn where_a_focus_goes(caches: Seq<EndpointState>, key: PaneKeyView)
    ensures
        ({
            let row = found(caches, key.side, key.terminal_id);
            let held = kept(caches, key.side, key.terminal_id);
            let goal = focus_goal(caches, key);
            &&& row is Some ==> goal is Some && (goal->0).side == key.side && (goal->0).pane_id == (row->0).pane_id@
            &&& row is Some ==> ((goal->0).has_agent <==> (row->0).status is Some)
            &&& row is None && held is Some ==> goal is Some && (goal->0).side == key.side && (goal->0).pane_id == (
            held->0).agent.pane_id@
            &&& row is None && held is None ==> goal is None
        }),
{
}

/// The session of a side is the name that was read, once it was.
pub proof fn the_session_of_a_side(caches: Seq<EndpointState>, side: SideView, at: int, name: String)
    requires
        side_at(caches, side) == Some(at),
    ensures
        caches[at].session_name == Read::Done(name) ==> session_of(caches, side) == Some(name@),
        !(caches[at].session_name is Done) ==> session_of(caches, side) is None,
{
}

/// The sides that answer are those with a sample, in order.
pub proof fn the_sides_that_answer(caches: Seq<EndpointState>, last: EndpointState)
    ensures
        answering(Seq::empty()) == Seq::<SideView>::empty(),
        last.sampled_at is Some ==> answering(caches.push(last)) == answering(caches).push(last.side),
        last.sampled_at is None ==> answering(caches.push(last)) == answering(caches),
{
    assert(caches.push(last).drop_last() =~= caches);
}

/// Asking for an attach wakes its side and puts it in line; nothing else moves.
pub proof fn an_attach_that_is_asked_for(s: HostState, key: PaneKeyView, target: PaneTargetView, request: AttachRequestView, now: u64)
    ensures
        ({
            let after = s.attach_asked(key, target, request, now);
            &&& after.attach == attach_queued(s.attach, key, target, request)
            &&& after.caches == reconnecting(s.caches, key.side, now)
            &&& after.view == s.view && after.view_focus == s.view_focus && after.create == s.create
        }),
{
}

/// The attach at the head starts where the view asks for nothing, and leaves
/// the line when its launch lands; the others move up.
pub proof fn the_head_of_the_line_starts_and_leaves(s: HostState, landed: Landed<Result<Launch, String>>, now: u64)
    requires
        s.view_focus is None,
        s.attach.len() > 0,
    ensures
        !s.attach[0].started ==> {
            let after = s.attach_polled(landed, now);
            &&& after.attach.len() == s.attach.len()
            &&& after.attach[0] == (PendingAttachView { started: true, ..s.attach[0] })
            &&& forall|i: int| 1 <= i < s.attach.len() ==> after.attach[i] == s.attach[i]
            &&& s.head_launch(landed) is None
        },
        s.attach[0].started && landed is Waiting ==> s.attach_polled(landed, now) == s && s.head_launch(landed) is None,
        s.attach[0].started && !(landed is Waiting) ==> s.attach_polled(landed, now).attach == s.attach.subrange(
            1,
            s.attach.len() as int,
        ),
{
    assert(s.attach.drop_first() =~= s.attach.subrange(1, s.attach.len() as int));
}

/// What an attach is answered: its launch, its refusal, or that it did not
/// finish.
pub proof fn what_an_attach_is_answered(s: HostState, launch: Launch, message: String)
    requires
        s.view_focus is None,
        s.attach.len() > 0,
        s.attach[0].started,
    ensures
        s.head_launch(Landed::Value(Ok(launch))) == Some(Ok::<LaunchView, Seq<char>>(launch@)),
        s.head_launch(Landed::Value(Err(message))) == Some(Err::<LaunchView, Seq<char>>(message@)),
        s.head_launch(Landed::Panicked) == Some(
            Err::<LaunchView, Seq<char>>("the herdr attach did not finish"@),
        ),
{
}

/// An attach goes to its pane as it is now listed, and as it was asked for
/// where it is listed no longer.
pub proof fn an_attach_goes_to_its_pane_as_listed(s: HostState)
    requires
        s.attach.len() > 0,
    ensures
        ({
            let head = s.attach[0];
            let row = found(s.caches, head.key.side, head.key.terminal_id);
            &&& row is Some ==> s.head_target().side == head.key.side && s.head_target().pane_id == (row->0).pane_id@
                && (s.head_target().has_agent <==> (row->0).status is Some)
            &&& row is None ==> s.head_target() == head.target
        }),
{
}

/// A focus call that lands settles its view and, where it went well, notes
/// where herdr's focus went; a session that closed meanwhile is only let go.
pub proof fn a_focus_call_that_lands(s: HostState, session: SessionId, key: PaneKeyView, message: String, now: u64)
    requires
        s.view_focus == Some((session, key)),
    ensures
        s.focus_landed(false, Landed::Waiting, now).view_focus is None,
        s.focus_landed(false, Landed::Waiting, now).view == s.view,
        s.focus_landed(true, Landed::Waiting, now) == s,
        s.focus_landed(true, Landed::Value(Ok(())), now).view_focus is None,
        s.focus_landed(true, Landed::Value(Ok(())), now).view == s.view.moved(
            HerdrKeyView { side: key.side, terminal_id: key.terminal_id },
            now,
        ).settled(session, true, now),
        s.focus_landed(true, Landed::Value(Ok(())), now).caches == s.caches,
        s.focus_landed(true, Landed::Value(Err(message)), now).view_focus is None,
        s.focus_landed(true, Landed::Value(Err(message)), now).view == s.view.settled(session, false, now),
        s.focus_landed(true, Landed::Value(Err(message)), now).caches == gesture_noted(
            s.caches,
            key.side,
            Some(message@),
            now,
        ),
        s.focus_landed(true, Landed::Panicked, now).view_focus is None,
        s.focus_landed(true, Landed::Panicked, now).view == s.view.settled(session, false, now),
{
}

/// Where the view asks for the active session's pane, the call goes to the
/// pane's side and names it, and is remembered as that session's; where it
/// follows, the user is sent to that pane.
pub proof fn what_a_view_sync_asks_for(
    s: HostState,
    id: SessionId,
    key: PaneKeyView,
    has_agent: bool,
    attentive: bool,
    open: Seq<SessionId>,
    landed: Landed<Result<(), String>>,
    now: u64,
)
    requires
        s.view_focus is None,
    ensures
        ({
            let active = Some((id, Some(key), has_agent));
            let action = s.view.next(s.facts(active, attentive)).1;
            let (after, follow, call) = s.synced(active, attentive, open, landed, now);
            &&& action is None ==> follow is None && call is None
            &&& action matches Some(ViewActionView::Follow(there)) ==> call is None && follow == Some(
                PaneKeyView { multiplexer: MultiplexerKind::Herdr, side: there.side, terminal_id: there.terminal_id },
            )
            &&& action matches Some(ViewActionView::Focus(shown)) ==> follow is None && match focus_goal(s.caches, key) {
                Some(target) => {
                    &&& after.view_focus == Some((shown, key))
                    &&& call is Some && (call->0).0 == key.side
                    &&& (call->0).1 == crate::herdr::model::focus_words(target.has_agent, target.tab_id, target.pane_id)
                },
                None => call is None && after.view_focus is None,
            }
        }),
{
}

/// The view is told of the active session as it is, of the settings, and that
/// herdr is busy while a focus call or an attach is under way.
pub proof fn what_the_view_is_told(s: HostState, id: SessionId, key: PaneKeyView, has_agent: bool, attentive: bool)
    ensures
        ({
            let facts = s.facts(Some((id, Some(key), has_agent)), attentive);
            &&& facts.active == Some(
                (id, Some(HerdrKeyView { side: key.side, terminal_id: key.terminal_id }), has_agent),
            )
            &&& facts.busy <==> s.view_focus is Some || s.attach.len() > 0
            &&& facts.attentive == attentive && facts.caches == s.caches && facts.platform == s.platform
            &&& facts.attach == s.config.attach && facts.follow == s.config.follow_focus
        }),
        s.facts(None, attentive).active is None,
        s.facts(Some((id, None, has_agent)), attentive).active == Some((id, None::<HerdrKeyView>, has_agent)),
{
}

/// A session that closes takes its attaches out of the line and its focus call
/// with it; another session's focus call stays.
pub proof fn a_session_that_closes(s: HostState, id: SessionId, key: PaneKeyView)
    ensures
        ({
            let after = s.session_closed(id, Some(key));
            &&& after.attach == s.attach.filter(|p: PendingAttachView| p.key != key)
            &&& after.view == s.view.closed(id)
            &&& s.view_focus matches Some((session, pane)) ==> after.view_focus == if session == id {
                None
            } else {
                Some((session, pane))
            }
            &&& after.caches == s.caches
        }),
        s.session_closed(id, None).attach == s.attach,
{
}

/// A pane's key is herdr's, and a herdr key is a pane's without the name.
pub proof fn the_two_keys_of_a_pane(key: HerdrKeyView)
    ensures
        as_pane_key(key).multiplexer == MultiplexerKind::Herdr,
        as_pane_key(key).side == key.side,
        as_pane_key(key).terminal_id == key.terminal_id,
        as_herdr_key(as_pane_key(key)) == key,
{
}

proof fn member_names_differ()
    ensures
        "name"@ != "side"@,
        "name"@ != "session"@,
        "name"@ != "terminal_id"@,
        "name"@ != "pane_id"@,
        "name"@ != "tab_id"@,
        "side"@ != "session"@,
        "side"@ != "terminal_id"@,
        "side"@ != "pane_id"@,
        "side"@ != "tab_id"@,
        "session"@ != "terminal_id"@,
        "session"@ != "pane_id"@,
        "session"@ != "tab_id"@,
        "terminal_id"@ != "pane_id"@,
        "terminal_id"@ != "tab_id"@,
        "pane_id"@ != "tab_id"@,
{
    reveal_strlit("name");
    reveal_strlit("side");
    reveal_strlit("session");
    reveal_strlit("terminal_id");
    reveal_strlit("pane_id");
    reveal_strlit("tab_id");
    assert("name"@[0] != "side"@[0]);
    assert("name"@.len() != "session"@.len());
    assert("name"@.len() != "terminal_id"@.len());
    assert("name"@.len() != "pane_id"@.len());
    assert("name"@.len() != "tab_id"@.len());
    assert("side"@.len() != "session"@.len());
    assert("side"@.len() != "terminal_id"@.len());
    assert("side"@.len() != "pane_id"@.len());
    assert("side"@.len() != "tab_id"@.len());
    assert("session"@.len() != "terminal_id"@.len());
    assert("session"@[0] != "pane_id"@[0]);
    assert("session"@.len() != "tab_id"@.len());
    assert("terminal_id"@.len() != "pane_id"@.len());
    assert("terminal_id"@.len() != "tab_id"@.len());
    assert("pane_id"@.len() != "tab_id"@.len());
}

/// A session's pane is told by name, side, session, terminal, pane and tab,
/// each under its own name, with null for what is not known.
pub proof fn a_pane_is_told_by_its_parts(session: Option<Seq<char>>, side: SideView, terminal_id: Seq<char>, pane: Option<PaneView>)
    ensures
        ({
            let told = Tree::Object(pane_members(session, side, terminal_id, pane));
            &&& member(told, "name"@) == Some(Tree::Text("herdr"@))
            &&& side is Native ==> member(told, "side"@) == Some(Tree::Text("native"@))
            &&& side matches SideView::Wsl(distro) ==> member(told, "side"@) == Some(Tree::Text("wsl:"@ + distro))
            &&& session is Some ==> member(told, "session"@) == Some(Tree::Text(session->0))
            &&& session is None ==> member(told, "session"@) == Some(Tree::Null)
            &&& member(told, "terminal_id"@) == Some(Tree::Text(terminal_id))
            &&& pane is Some ==> member(told, "pane_id"@) == Some(Tree::Text((pane->0).pane_id))
            &&& pane is Some && (pane->0).tab_id is Some ==> member(told, "tab_id"@) == Some(
                Tree::Text((pane->0).tab_id->0),
            )
            &&& pane is None || (pane->0).tab_id is None ==> member(told, "tab_id"@) == Some(Tree::Null)
            &&& pane is None ==> member(told, "pane_id"@) == Some(Tree::Null)
        }),
{
    member_names_differ();
    reveal_with_fuel(lookup, 8);
}

/// A program runs as it is on the native side, and in a login shell of its
/// distro in WSL.
pub proof fn how_a_program_runs_on_a_side(distro: Seq<char>, program: Seq<char>, args: Seq<Seq<char>>)
    ensures
        side_launch(SideView::Native, program, args).program == program,
        side_launch(SideView::Native, program, args).argv == args,
        side_launch(SideView::Wsl(distro), program, args).program == "wsl.exe"@,
        side_launch(SideView::Wsl(distro), program, args).argv == seq![
            "-d"@,
            distro,
            "--exec"@,
            "sh"@,
            "-lc"@,
            shell_line(program, args),
        ],
{
}

/// A pane that names no side is created on the one that answers; where none or
/// several do, that is said, the several by name.
pub proof fn where_a_pane_is_created(side: SideView, other: SideView)
    ensures
        landing_side(seq![side]) == Ok::<SideView, Seq<char>>(side),
        landing_side(Seq::empty()) == Err::<SideView, Seq<char>>(
            "no herdr server is answering; start one, or name a side"@,
        ),
        landing_side(seq![side, other]) == Err::<SideView, Seq<char>>(
            "no herdr session is focused and "@ + (side_name(side) + " and "@ + side_name(other))
                + " are answering; name one"@,
        ),
{
    let both = seq![side, other];
    let names = crate::herdr::host::side_names(both);
    assert(names.drop_last() =~= seq![side_name(side)]);
    assert(joined(names.drop_last(), " and "@) == side_name(side));
    assert(joined(names, " and "@) == side_name(side) + " and "@ + side_name(other));
}

/// A terminal is gone where the last full listing of its side is newer than the
/// session's hold on it and does not have it; without such a listing it is not.
pub proof fn when_a_terminal_is_gone(
    caches: Seq<EndpointState>,
    side: SideView,
    terminal_id: Seq<char>,
    bound_at: u64,
    at: int,
    sampled_at: u64,
    ids: Seq<Seq<char>>,
)
    requires
        side_at(caches, side) == Some(at),
    ensures
        caches[at].inventory == Some((sampled_at, ids)) ==> {
            &&& sampled_at > bound_at && !ids.contains(terminal_id) ==> gone_at(caches, side, terminal_id, bound_at) == Some(
                sampled_at,
            )
            &&& sampled_at <= bound_at || ids.contains(terminal_id) ==> gone_at(caches, side, terminal_id, bound_at)
                is None
        },
        caches[at].inventory is None ==> gone_at(caches, side, terminal_id, bound_at) is None,
{
}

} // verus!

//! How panes are named, placed and drawn, and which multiplexer answers.

use vstd::prelude::*;

#[allow(unused_imports)]
use crate::herdr::view::SessionId;
#[allow(unused_imports)]
use crate::json::{lookup, member, Tree};
#[allow(unused_imports)]
use crate::multiplexer::listing::{flat, listed_at, listed_at_is_first, row_at, Drawing, ListedView};
#[allow(unused_imports)]
use crate::multiplexer::model::{
    is_real, kind_name, located_cwd, merged_focus, merged_request, named_kind, named_status, pane_name,
    pane_workspace, reported_cwd, status_label, target_of, working_directory, AttachFocus, AttachRequestView,
    MultiplexerKind, Pane, PaneKeyView, PaneStatus, PaneView,
};
#[allow(unused_imports)]
use crate::multiplexer::scripted::{
    departing, found_in, left_at, left_out, other_than, place_of_is_first, queued_at, scripted_members,
    still_dropped, tone_of, QueuedAttach, StateTone,
};
#[allow(unused_imports)]
use crate::multiplexer::set::{
    all_drawn, all_waiting, enabled_place, kind_place, locating, owned, pane_error_text, request_of, rows_before,
    stamps, told_of_close, waiting_in, Multiplexer, PaneError,
};
#[allow(unused_imports)]
use crate::paths::workspace_of;
#[allow(unused_imports)]
use crate::side::{
    login_shell_argv, named_side, plain_in_shell, shell_line, shell_quoted, side_name, Platform, SideView,
};
#[allow(unused_imports)]
use crate::text::{is_blank, joined};

verus! {

/// A multiplexer is named in lower case, and only the three names name one.
pub proof fn a_multiplexer_is_named_by_its_word(name: Seq<char>)
    ensures
        kind_name(MultiplexerKind::Herdr) == "herdr"@,
        kind_name(MultiplexerKind::Zellij) == "zellij"@,
        kind_name(MultiplexerKind::Scripted) == "scripted"@,
        named_kind(name) is Some <==> name == "herdr"@ || name == "zellij"@ || name == "scripted"@,
        is_real(MultiplexerKind::Herdr),
        is_real(MultiplexerKind::Zellij),
        !is_real(MultiplexerKind::Scripted),
{
}

/// A state is told by its word, and a word that is none of the four is an
/// unknown state.
pub proof fn a_state_is_told_by_its_word(raw: Seq<char>)
    ensures
        status_label(PaneStatus::Idle) == "idle"@,
        status_label(PaneStatus::Working) == "working"@,
        status_label(PaneStatus::Blocked) == "blocked"@,
        status_label(PaneStatus::Done) == "done"@,
        status_label(PaneStatus::Unknown) == "unknown"@,
        raw != "idle"@ && raw != "working"@ && raw != "blocked"@ && raw != "done"@ ==> named_status(raw)
            == PaneStatus::Unknown,
        named_status("idle"@) == PaneStatus::Idle,
        named_status("working"@) == PaneStatus::Working,
        named_status("blocked"@) == PaneStatus::Blocked,
        named_status("done"@) == PaneStatus::Done,
{
    states_differ();
}

proof fn states_differ()
    ensures
        "idle"@ != "working"@,
        "idle"@ != "blocked"@,
        "idle"@ != "done"@,
        "working"@ != "blocked"@,
        "working"@ != "done"@,
        "blocked"@ != "done"@,
{
    reveal_strlit("idle");
    reveal_strlit("working");
    reveal_strlit("blocked");
    reveal_strlit("done");
    assert("idle"@.len() != "working"@.len());
    assert("idle"@.len() != "blocked"@.len());
    assert("idle"@[0] != "done"@[0]);
    assert("working"@[0] != "blocked"@[0]);
    assert("working"@.len() != "done"@.len());
    assert("blocked"@.len() != "done"@.len());
}

/// Where a pane works: where its foreground process does, else where it does
/// itself.
pub proof fn where_a_pane_is(pane: PaneView)
    ensures
        pane.foreground_cwd is Some ==> reported_cwd(pane) == pane.foreground_cwd,
        pane.foreground_cwd is None ==> reported_cwd(pane) == pane.cwd,
        pane.foreground_cwd matches Some(dir) ==> !is_blank(dir) ==> working_directory(pane) == Some(dir),
        pane.foreground_cwd is None || is_blank(pane.foreground_cwd->0) ==> {
            &&& pane.cwd matches Some(dir) ==> !is_blank(dir) ==> working_directory(pane) == Some(dir)
            &&& pane.cwd is None || is_blank(pane.cwd->0) ==> working_directory(pane) is None
        },
{
}

/// A directory is taken as it is on the native side, and as translated in WSL;
/// a pane that reports none is nowhere.
pub proof fn a_directory_is_taken_from_its_side(side: SideView, pane: PaneView, translated: Option<Seq<char>>)
    ensures
        reported_cwd(pane) is None ==> located_cwd(side, pane, translated) is None,
        reported_cwd(pane) is Some && side is Native ==> located_cwd(side, pane, translated) == reported_cwd(pane),
        reported_cwd(pane) is Some && side is Wsl ==> located_cwd(side, pane, translated) == translated,
{
}

/// A pane is in the workspace its directory is in, and in none without one.
pub proof fn a_pane_is_in_its_directorys_workspace(
    side: SideView,
    pane: PaneView,
    translated: Option<Seq<char>>,
    workspaces: Seq<Seq<char>>,
    platform: Platform,
)
    ensures
        located_cwd(side, pane, translated) matches Some(dir) ==> pane_workspace(
            side,
            pane,
            translated,
            workspaces,
            platform,
        ) == workspace_of(dir, workspaces, platform),
        located_cwd(side, pane, translated) is None ==> pane_workspace(side, pane, translated, workspaces, platform)
            is None,
{
}

/// A pane is named by its agent in backticks and its title in quotes, whichever
/// it has.
pub proof fn a_pane_is_named_by_agent_and_title(kind: Seq<char>, title: Seq<char>)
    ensures
        pane_name(Some(kind), Some(title)) == Some(seq!['`'] + kind + seq!['`', ' ', '"'] + title + seq!['"']),
        pane_name(Some(kind), None) == Some(seq!['`'] + kind + seq!['`']),
        pane_name(None, Some(title)) == Some(seq!['"'] + title + seq!['"']),
        pane_name(None, None) is None,
{
    reveal_strlit("`");
    reveal_strlit(" ");
    reveal_strlit("\"");
    assert("`"@ =~= seq!['`']);
    assert("\""@ =~= seq!['"']);
    assert(pane_name(Some(kind), Some(title))->0 =~= seq!['`'] + kind + seq!['`', ' ', '"'] + title + seq!['"']);
}

/// An attach takes the focus where any who asked for it wants that.
pub proof fn a_focus_is_taken_where_anyone_asks(pending: AttachFocus, joining: AttachFocus)
    ensures
        merged_focus(pending, joining) == AttachFocus::Take <==> pending == AttachFocus::Take || joining
            == AttachFocus::Take,
        merged_focus(pending, joining) == merged_focus(joining, pending),
{
}

/// A request that joins another adds its waiters behind the others, and keeps
/// the workspace and the name of the first.
pub proof fn a_joined_request_adds_its_waiters(pending: AttachRequestView, joining: AttachRequestView)
    ensures
        merged_request(pending, joining).waiters == pending.waiters + joining.waiters,
        merged_request(pending, joining).workspace == pending.workspace,
        merged_request(pending, joining).previous == pending.previous,
        merged_request(pending, joining).focus == merged_focus(pending.focus, joining.focus),
{
}

/// A target is its pane on its side, with its tab, and with an agent exactly
/// where the pane has a state.
pub proof fn a_target_is_its_pane(pane: PaneView, side: SideView)
    ensures
        target_of(pane, side).side == side,
        target_of(pane, side).pane_id == pane.pane_id,
        target_of(pane, side).tab_id == pane.tab_id,
        target_of(pane, side).has_agent <==> pane.status is Some,
{
}

/// The rows of all sides are those of each side in order, on that side.
pub proof fn the_rows_of_all_sides(sides: Seq<(SideView, Seq<Pane>)>, side: SideView, panes: Seq<Pane>, i: int)
    ensures
        flat(Seq::empty()) == Seq::<(SideView, Pane)>::empty(),
        flat(sides.push((side, panes))).len() == flat(sides).len() + panes.len(),
        0 <= i < flat(sides).len() ==> flat(sides.push((side, panes)))[i] == flat(sides)[i],
        0 <= i < panes.len() ==> flat(sides.push((side, panes)))[flat(sides).len() + i] == (side, panes[i]),
{
    assert(sides.push((side, panes)).drop_last() =~= sides);
}

proof fn a_row_is_the_first_of_its_pane(list: Seq<(SideView, Pane)>, side: SideView, terminal_id: Seq<char>)
    ensures
        match row_at(list, side, terminal_id) {
            Some(at) => 0 <= at < list.len() && list[at].0 == side && list[at].1.terminal_id@ == terminal_id && forall|
                i: int,
            |
                0 <= i < at ==> !((#[trigger] list[i]).0 == side && list[i].1.terminal_id@ == terminal_id),
            None => forall|i: int|
                0 <= i < list.len() ==> !((#[trigger] list[i]).0 == side && list[i].1.terminal_id@ == terminal_id),
        },
    decreases list.len(),
{
    if list.len() > 0 {
        let front = list.drop_last();
        a_row_is_the_first_of_its_pane(front, side, terminal_id);
        assert forall|i: int| 0 <= i < front.len() implies #[trigger] list[i] == front[i] by {}
    }
}

/// A pane's row is the first that holds its terminal on its side.
pub proof fn a_pane_is_placed_at_its_first_row(list: Seq<(SideView, Pane)>, side: SideView, terminal_id: Seq<char>, at: int)
    requires
        0 <= at < list.len(),
        list[at].0 == side && list[at].1.terminal_id@ == terminal_id,
        forall|i: int| 0 <= i < at ==> !((#[trigger] list[i]).0 == side && list[i].1.terminal_id@ == terminal_id),
    ensures
        row_at(list, side, terminal_id) == Some(at),
{
    a_row_is_the_first_of_its_pane(list, side, terminal_id);
}

/// A pane is drawn unless a session has claimed it, or it is in no workspace
/// and such panes are not shown; its row holds it, under its own key and in its
/// workspace.
pub proof fn when_a_pane_is_drawn(d: Drawing, side: SideView, pane: Pane, directory: Option<Seq<char>>)
    ensures
        ({
            let key = PaneKeyView { multiplexer: d.kind, side, terminal_id: pane.terminal_id@ };
            let workspace = pane_workspace(side, pane@, directory, d.workspaces, d.platform);
            &&& d.row(side, pane, directory) is None <==> d.claimed.contains(key) || (workspace is None
                && !d.show_unmatched)
            &&& d.row(side, pane, directory) matches Some(row) ==> row.key == key && row.workspace == workspace
                && row.pane == pane
        }),
{
}

/// The rows drawn are those of the panes that are drawn, in order.
pub proof fn the_rows_that_are_drawn(d: Drawing, list: Seq<(SideView, Pane)>, side: SideView, pane: Pane, directories: Seq<Option<Seq<char>>>)
    requires
        directories.len() == list.len() + 1,
    ensures
        d.rows(Seq::empty(), directories) == Seq::<ListedView>::empty(),
        d.row(side, pane, directories[list.len() as int]) matches Some(row) ==> d.rows(
            list.push((side, pane)),
            directories,
        ) == d.rows(list, directories).push(row),
        d.row(side, pane, directories[list.len() as int]) is None ==> d.rows(list.push((side, pane)), directories)
            == d.rows(list, directories),
{
    assert(list.push((side, pane)).drop_last() =~= list);
}

/// Why a pane cannot be asked for, in words.
pub proof fn why_no_multiplexer_answers(name: String)
    ensures
        pane_error_text(PaneError::AllDisabled) == "every multiplexer is disabled; enable herdr or zellij"@,
        pane_error_text(PaneError::Unknown { name }) == "`"@ + name@
            + "` is not a multiplexer, expected `herdr` or `zellij`"@,
        pane_error_text(PaneError::Disabled(MultiplexerKind::Herdr)) == "`"@ + "herdr"@ + "` is disabled"@,
        pane_error_text(PaneError::Disabled(MultiplexerKind::Zellij)) == "`"@ + "zellij"@ + "` is disabled"@,
{
}

proof fn the_first_enabled_is_found(list: Seq<Multiplexer>)
    ensures
        match enabled_place(list) {
            Some(at) => 0 <= at < list.len() && list[at].is_enabled() && forall|i: int|
                0 <= i < at ==> !(#[trigger] list[i]).is_enabled(),
            None => forall|i: int| 0 <= i < list.len() ==> !(#[trigger] list[i]).is_enabled(),
        },
    decreases list.len(),
{
    if list.len() > 0 {
        let front = list.drop_last();
        the_first_enabled_is_found(front);
        assert forall|i: int| 0 <= i < front.len() implies #[trigger] list[i] == front[i] by {}
    }
}

/// A request without a name goes to any multiplexer, if one is enabled; one
/// with a name goes to that one, if it is real and enabled; and no other name
/// is answered.
pub proof fn which_multiplexer_is_asked(list: Seq<Multiplexer>, name: Seq<char>)
    ensures
        (exists|i: int| 0 <= i < list.len() && (#[trigger] list[i]).is_enabled()) ==> request_of(list, None) == Ok::<
            Option<MultiplexerKind>,
            Seq<char>,
        >(None),
        !(exists|i: int| 0 <= i < list.len() && (#[trigger] list[i]).is_enabled()) ==> request_of(list, None) is Err,
        name != "herdr"@ && name != "zellij"@ ==> request_of(list, Some(name)) == Err::<Option<MultiplexerKind>, Seq<char>>(
            "`"@ + name + "` is not a multiplexer, expected `herdr` or `zellij`"@,
        ),
        kind_place(list, MultiplexerKind::Herdr) matches Some(at) ==> {
            &&& list[at].is_enabled() ==> request_of(list, Some("herdr"@)) == Ok::<Option<MultiplexerKind>, Seq<char>>(
                Some(MultiplexerKind::Herdr),
            )
            &&& !list[at].is_enabled() ==> request_of(list, Some("herdr"@)) == Err::<Option<MultiplexerKind>, Seq<char>>(
                "`"@ + "herdr"@ + "` is disabled"@,
            )
        },
        kind_place(list, MultiplexerKind::Zellij) matches Some(at) ==> {
            &&& list[at].is_enabled() ==> request_of(list, Some("zellij"@)) == Ok::<Option<MultiplexerKind>, Seq<char>>(
                Some(MultiplexerKind::Zellij),
            )
            &&& !list[at].is_enabled() ==> request_of(list, Some("zellij"@)) == Err::<Option<MultiplexerKind>, Seq<char>>(
                "`"@ + "zellij"@ + "` is disabled"@,
            )
        },
{
    the_first_enabled_is_found(list);
    kinds_differ();
}

proof fn kinds_differ()
    ensures
        "herdr"@ != "zellij"@,
        "herdr"@ != "scripted"@,
        "zellij"@ != "scripted"@,
{
    reveal_strlit("herdr");
    reveal_strlit("zellij");
    reveal_strlit("scripted");
    assert("herdr"@.len() != "zellij"@.len());
    assert("herdr"@.len() != "scripted"@.len());
    assert("zellij"@.len() != "scripted"@.len());
}

proof fn the_first_that_lists_is_found(list: Seq<Multiplexer>, only: Option<MultiplexerKind>, side: SideView, terminal_id: Seq<char>)
    ensures
        match locating(list, only, side, terminal_id) {
            Some(at) => 0 <= at < list.len() && lists(list[at], only, side, terminal_id) && forall|i: int|
                0 <= i < at ==> !lists(#[trigger] list[i], only, side, terminal_id),
            None => forall|i: int| 0 <= i < list.len() ==> !lists(#[trigger] list[i], only, side, terminal_id),
        },
    decreases list.len(),
{
    if list.len() > 0 {
        let front = list.drop_last();
        the_first_that_lists_is_found(front, only, side, terminal_id);
        assert forall|i: int| 0 <= i < front.len() implies #[trigger] list[i] == front[i] by {}
    }
}

/// The multiplexer is enabled, is the one asked for if one is, and lists the
/// pane.
pub open spec fn lists(m: Multiplexer, only: Option<MultiplexerKind>, side: SideView, terminal_id: Seq<char>) -> bool {
    &&& m.is_enabled()
    &&& only matches Some(kind) ==> m.spec_kind() == kind
    &&& m.listed_pane(side, terminal_id) is Some
}

/// A pane is answered for by the first multiplexer that lists it, among the
/// enabled ones that may answer.
pub proof fn a_pane_is_answered_by_the_first_that_lists_it(
    list: Seq<Multiplexer>,
    only: Option<MultiplexerKind>,
    side: SideView,
    terminal_id: Seq<char>,
    at: int,
)
    requires
        0 <= at < list.len(),
        lists(list[at], only, side, terminal_id),
        forall|i: int| 0 <= i < at ==> !lists(#[trigger] list[i], only, side, terminal_id),
    ensures
        locating(list, only, side, terminal_id) == Some(at),
{
    the_first_that_lists_is_found(list, only, side, terminal_id);
}

/// What all multiplexers draw is what each enabled one draws, in order.
pub proof fn what_all_multiplexers_draw(
    list: Seq<Multiplexer>,
    last: Multiplexer,
    claimed: Seq<PaneKeyView>,
    workspaces: Seq<Seq<char>>,
    directories: Seq<Seq<Option<Seq<char>>>>,
    platform: Platform,
)
    requires
        directories.len() == list.len() + 1,
    ensures
        ({
            let front = all_drawn(list, claimed, workspaces, directories, platform);
            let all = all_drawn(list.push(last), claimed, workspaces, directories, platform);
            &&& last.is_enabled() ==> all == front + last.drawn(
                claimed,
                workspaces,
                directories[list.len() as int],
                platform,
            )
            &&& !last.is_enabled() ==> all == front
        }),
        all_drawn(Seq::empty(), claimed, workspaces, directories, platform) == Seq::<ListedView>::empty(),
{
    assert(list.push(last).drop_last() =~= list);
}

/// The rows before a multiplexer are those of all before it, whether they are
/// drawn or not.
pub proof fn the_rows_before_a_multiplexer(list: Seq<Multiplexer>, last: Multiplexer)
    ensures
        rows_before(Seq::empty()) == 0,
        rows_before(list.push(last)) == rows_before(list) + flat(last.sides()).len(),
{
    assert(list.push(last).drop_last() =~= list);
}

/// A multiplexer is of its own kind, enabled and drawn as it is set up, and
/// stamped by its own generation.
pub proof fn a_multiplexer_is_what_it_holds(m: Multiplexer)
    ensures
        match m {
            Multiplexer::Herdr(h) => {
                &&& m.spec_kind() == MultiplexerKind::Herdr
                &&& m.is_enabled() == h@.config.enabled
                &&& m.draws_unmatched() == h@.config.show_unmatched
                &&& m.stamp() == crate::herdr::endpoints::set_generation(h@.membership, h@.caches)
            },
            Multiplexer::Zellij(z) => {
                &&& m.spec_kind() == MultiplexerKind::Zellij
                &&& m.is_enabled() == z.enabled
                &&& m.draws_unmatched() == z.show_unmatched
                &&& m.stamp() == z.generation
            },
            Multiplexer::Scripted(s) => {
                &&& m.spec_kind() == MultiplexerKind::Scripted
                &&& m.is_enabled() == s.enabled
                &&& m.draws_unmatched() == s.show_unmatched
                &&& m.stamp() == s.generation
            },
        },
{
}

/// The rows of herdr are those of its sides, each with its panes.
pub proof fn the_rows_of_herdr_are_its_sides(m: Multiplexer, i: int)
    ensures
        m matches Multiplexer::Herdr(h) ==> m.sides().len() == h@.caches.len() && (0 <= i < h@.caches.len()
            ==> m.sides()[i] == (h@.caches[i].side, h@.caches[i].agents)),
{
}

/// What a multiplexer draws is drawn as its own, and unmatched panes as it is
/// set up.
pub proof fn what_a_multiplexer_draws(
    m: Multiplexer,
    claimed: Seq<PaneKeyView>,
    workspaces: Seq<Seq<char>>,
    directories: Seq<Option<Seq<char>>>,
    platform: Platform,
)
    ensures
        m.drawn(claimed, workspaces, directories, platform) == (Drawing {
            kind: m.spec_kind(),
            claimed,
            workspaces,
            platform,
            show_unmatched: m.draws_unmatched(),
        }).rows(flat(m.sides()), directories),
{
}

/// The stamp of all is the sum of theirs.
pub proof fn the_stamps_add_up(list: Seq<Multiplexer>, last: Multiplexer)
    ensures
        stamps(Seq::empty()) == 0,
        stamps(list.push(last)) == (stamps(list) + last.stamp()) % 0x1_0000_0000_0000_0000,
{
    assert(list.push(last).drop_last() =~= list);
}

/// A session that closes is told to each multiplexer: herdr lets go of it,
/// zellij has nothing of it, and a scripted one notes it and drops its attach.
pub proof fn every_multiplexer_is_told_of_a_close(before: Multiplexer, after: Multiplexer, id: SessionId, key: PaneKeyView)
    requires
        told_of_close(before, after, id, Some(key)),
    ensures
        before.spec_kind() == after.spec_kind(),
        before matches Multiplexer::Herdr(b) ==> after matches Multiplexer::Herdr(a) && a@ == b@.session_closed(
            id,
            Some(key),
        ),
        before is Zellij ==> after == before,
        before matches Multiplexer::Scripted(b) ==> after matches Multiplexer::Scripted(a) && a.closed@.len()
            == b.closed@.len() + 1 && a.closed@.last().0 == id && a.attach_queue@ == b.attach_queue@.filter(
            other_than(key),
        ),
{
}

/// A key is told to the multiplexer it names, and to no other.
pub proof fn a_key_is_told_to_its_own(key: PaneKeyView, kind: MultiplexerKind)
    ensures
        owned(Some(key), kind) == if key.multiplexer == kind {
            Some(key)
        } else {
            None
        },
        owned(None, kind) is None,
{
}

/// The clients waiting on a pane are those waiting in each multiplexer.
pub proof fn who_waits_on_a_pane(list: Seq<Multiplexer>, last: Multiplexer, key: Option<PaneKeyView>)
    ensures
        all_waiting(Seq::empty(), key) == Seq::<u64>::empty(),
        all_waiting(list.push(last), key) == all_waiting(list, key) + waiting_in(last, owned(key, last.spec_kind())),
{
    assert(list.push(last).drop_last() =~= list);
}

/// A scripted pane is the first of its terminal on the first of its side.
pub proof fn a_scripted_pane_is_found_on_its_side(
    sides: Seq<(SideView, Seq<Pane>)>,
    side: SideView,
    terminal_id: Seq<char>,
    at: int,
    i: int,
)
    requires
        0 <= at < sides.len(),
        sides[at].0 == side,
        forall|k: int| 0 <= k < at ==> (#[trigger] sides[k]).0 != side,
        0 <= i < sides[at].1.len(),
        sides[at].1[i].terminal_id@ == terminal_id,
        forall|k: int| 0 <= k < i ==> (#[trigger] sides[at].1[k]).terminal_id@ != terminal_id,
    ensures
        found_in(sides, side, terminal_id) == Some(sides[at].1[i]),
{
    place_of_is_first(sides, side);
    listed_at_is_first(sides[at].1, terminal_id);
}

/// The panes left out of a new listing are those of the old one whose
/// terminals it no longer holds, in order.
pub proof fn the_panes_left_out(previous: Seq<Pane>, last: Pane, panes: Seq<Pane>)
    ensures
        left_out(Seq::empty(), panes) == Seq::<Pane>::empty(),
        (exists|i: int| 0 <= i < panes.len() && (#[trigger] panes[i]).terminal_id@ == last.terminal_id@) ==> left_out(
            previous.push(last),
            panes,
        ) == left_out(previous, panes),
        !(exists|i: int| 0 <= i < panes.len() && (#[trigger] panes[i]).terminal_id@ == last.terminal_id@) ==> left_out(
            previous.push(last),
            panes,
        ) == left_out(previous, panes).push(last),
{
    assert(previous.push(last).drop_last() =~= previous);
    listed_at_is_first(panes, last.terminal_id@);
}

/// A departure is its pane's terminal on its side, at the time it left.
pub proof fn a_departure_is_stamped(side: SideView, left: Seq<Pane>, now: u64, i: int)
    requires
        0 <= i < left.len(),
    ensures
        departing(side, left, now).len() == left.len(),
        departing(side, left, now)[i] == (side, left[i].terminal_id@, now),
{
}

/// A dropped pane stays dropped unless its side lists its terminal again.
pub proof fn a_dropped_pane_stays_dropped(dropped: Seq<(SideView, Pane)>, side: SideView, panes: Seq<Pane>, one: (SideView, Pane))
    ensures
        still_dropped(dropped, side, panes).contains(one) <==> dropped.contains(one) && (one.0 != side || forall|i: int|
            0 <= i < panes.len() ==> (#[trigger] panes[i]).terminal_id@ != one.1.terminal_id@),
    decreases dropped.len(),
{
    reveal(Seq::filter);
    if dropped.len() > 0 {
        let front = dropped.drop_last();
        let last = dropped.last();
        let before = still_dropped(front, side, panes);
        let after = still_dropped(dropped, side, panes);
        a_dropped_pane_stays_dropped(front, side, panes, one);
        listed_at_is_first(panes, last.1.terminal_id@);
        let stays = last.0 != side || listed_at(panes, last.1.terminal_id@) is None;
        assert(after == if stays {
            before.push(last)
        } else {
            before
        });
        assert(dropped =~= front.push(last));
        if before.contains(one) {
            let i = choose|i: int| 0 <= i < before.len() && before[i] == one;
            assert(after[i] == one);
            let k = choose|k: int| 0 <= k < front.len() && front[k] == one;
            assert(dropped[k] == one);
        }
        if stays && one == last {
            assert(after[before.len() as int] == one);
        }
        if after.contains(one) && !before.contains(one) {
            let i = choose|i: int| 0 <= i < after.len() && after[i] == one;
            if i < before.len() {
                assert(before[i] == one);
            }
        }
        if dropped.contains(one) && one != last {
            let k = choose|k: int| 0 <= k < dropped.len() && dropped[k] == one;
            assert(front[k] == one);
        }
    }
}

/// A pane left when it last did.
pub proof fn a_pane_left_when_it_last_did(
    list: Seq<(SideView, Seq<char>, u64)>,
    side: SideView,
    terminal_id: Seq<char>,
    other: (SideView, Seq<char>, u64),
    at: u64,
)
    ensures
        left_at(list.push((side, terminal_id, at)), side, terminal_id) == Some(at),
        other.0 != side || other.1 != terminal_id ==> left_at(list.push(other), side, terminal_id) == left_at(
            list,
            side,
            terminal_id,
        ),
        left_at(Seq::empty(), side, terminal_id) is None,
{
    assert(list.push((side, terminal_id, at)).drop_last() =~= list);
    assert(list.push(other).drop_last() =~= list);
}

proof fn the_first_in_line_is_found(list: Seq<QueuedAttach>, key: PaneKeyView)
    ensures
        match queued_at(list, key) {
            Some(at) => 0 <= at < list.len() && list[at].key@ == key && forall|i: int|
                0 <= i < at ==> (#[trigger] list[i]).key@ != key,
            None => forall|i: int| 0 <= i < list.len() ==> (#[trigger] list[i]).key@ != key,
        },
    decreases list.len(),
{
    if list.len() > 0 {
        let front = list.drop_last();
        the_first_in_line_is_found(front, key);
        assert forall|i: int| 0 <= i < front.len() implies #[trigger] list[i] == front[i] by {}
    }
}

/// A scripted attach is in line at the first that has its key.
pub proof fn where_a_scripted_attach_is_in_line(list: Seq<QueuedAttach>, key: PaneKeyView, at: int)
    ensures
        0 <= at < list.len() && list[at].key@ == key && (forall|i: int|
            0 <= i < at ==> (#[trigger] list[i]).key@ != key) ==> queued_at(list, key) == Some(at),
        (forall|i: int| 0 <= i < list.len() ==> (#[trigger] list[i]).key@ != key) ==> queued_at(list, key) is None,
{
    the_first_in_line_is_found(list, key);
}

/// A pane that closes takes its own attach out of the line, and no other.
pub proof fn which_attaches_stay_in_line(q: QueuedAttach, key: PaneKeyView)
    ensures
        other_than(key)(q) <==> q.key@ != key,
{
}

/// Each state has the tone of its name, and an unknown one is unclear.
pub proof fn a_state_has_its_tone()
    ensures
        tone_of(PaneStatus::Blocked) == StateTone::Blocked,
        tone_of(PaneStatus::Working) == StateTone::Working,
        tone_of(PaneStatus::Done) == StateTone::Done,
        tone_of(PaneStatus::Idle) == StateTone::Idle,
        tone_of(PaneStatus::Unknown) == StateTone::Unclear,
{
}

proof fn scripted_names_differ()
    ensures
        "name"@ != "side"@,
        "name"@ != "terminal_id"@,
        "name"@ != "pane_id"@,
        "name"@ != "tab_id"@,
        "side"@ != "terminal_id"@,
        "side"@ != "pane_id"@,
        "side"@ != "tab_id"@,
        "terminal_id"@ != "pane_id"@,
        "terminal_id"@ != "tab_id"@,
        "pane_id"@ != "tab_id"@,
{
    reveal_strlit("name");
    reveal_strlit("side");
    reveal_strlit("terminal_id");
    reveal_strlit("pane_id");
    reveal_strlit("tab_id");
    assert("name"@[0] != "side"@[0]);
    assert("name"@.len() != "terminal_id"@.len());
    assert("name"@.len() != "pane_id"@.len());
    assert("name"@.len() != "tab_id"@.len());
    assert("side"@.len() != "terminal_id"@.len());
    assert("side"@.len() != "pane_id"@.len());
    assert("side"@.len() != "tab_id"@.len());
    assert("terminal_id"@.len() != "pane_id"@.len());
    assert("terminal_id"@.len() != "tab_id"@.len());
    assert("pane_id"@.len() != "tab_id"@.len());
}

/// A scripted pane is told by name, side, terminal, pane and tab, each under
/// its own name, with null for what is not known.
pub proof fn a_scripted_pane_is_told_by_its_parts(side: SideView, terminal_id: Seq<char>, pane: Option<PaneView>)
    ensures
        ({
            let told = Tree::Object(scripted_members(side, terminal_id, pane));
            &&& member(told, "name"@) == Some(Tree::Text("scripted"@))
            &&& side is Native ==> member(told, "side"@) == Some(Tree::Text("native"@))
            &&& side matches SideView::Wsl(distro) ==> member(told, "side"@) == Some(Tree::Text("wsl:"@ + distro))
            &&& member(told, "terminal_id"@) == Some(Tree::Text(terminal_id))
            &&& pane is Some ==> member(told, "pane_id"@) == Some(Tree::Text((pane->0).pane_id))
            &&& pane is None ==> member(told, "pane_id"@) == Some(Tree::Null)
            &&& pane is Some && (pane->0).tab_id is Some ==> member(told, "tab_id"@) == Some(
                Tree::Text((pane->0).tab_id->0),
            )
            &&& pane is None || (pane->0).tab_id is None ==> member(told, "tab_id"@) == Some(Tree::Null)
        }),
{
    scripted_names_differ();
    reveal_with_fuel(lookup, 7);
}

/// A side is named `native`, or after its distro behind `wsl:`, and a name of
/// any other form names none.
pub proof fn a_side_is_named(distro: Seq<char>, name: Seq<char>)
    ensures
        side_name(SideView::Native) == "native"@,
        side_name(SideView::Wsl(distro)) == "wsl:"@ + distro,
        name != "native"@ && !"wsl:"@.is_prefix_of(name) ==> named_side(name) is None,
        named_side("wsl:"@) is None,
{
    reveal_strlit("wsl:");
    reveal_strlit("native");
}

/// An argument stands bare in a shell line where it is not empty and made of
/// letters, digits and `-_./=` alone, and between single quotes otherwise.
pub proof fn when_an_argument_is_quoted(arg: Seq<char>)
    ensures
        arg.len() > 0 && (forall|i: int|
            0 <= i < arg.len() ==> {
                let c = #[trigger] arg[i];
                ('a' <= c <= 'z') || ('A' <= c <= 'Z') || ('0' <= c <= '9') || c == '-' || c == '_' || c == '.' || c
                    == '/' || c == '='
            }) ==> shell_quoted(arg) == arg,
        arg.len() == 0 ==> shell_quoted(arg) == seq!['\'', '\''],
        (exists|i: int| 0 <= i < arg.len() && !plain_in_shell(#[trigger] arg[i])) ==> shell_quoted(arg)[0] == '\''
            && shell_quoted(arg).last() == '\'',
{
    if arg.len() == 0 {
        assert(shell_quoted(arg) =~= seq!['\'', '\'']);
    }
}

/// A shell line is the program and its arguments, each quoted where it must
/// be, with a space between.
pub proof fn a_shell_line_is_its_words(program: Seq<char>, args: Seq<Seq<char>>)
    ensures
        ({
            let words = seq![program] + args;
            let quoted = Seq::new(words.len(), |i: int| shell_quoted(words[i]));
            shell_line(program, args) == joined(quoted, seq![' '])
        }),
{
    let words = seq![program] + args;
    let quoted = Seq::new(words.len(), |i: int| shell_quoted(words[i]));
    assert(words.map_values(|a: Seq<char>| shell_quoted(a)) =~= quoted);
}

/// A line runs in a distro through its login shell.
pub proof fn a_line_runs_in_a_login_shell(distro: Seq<char>, line: Seq<char>)
    ensures
        login_shell_argv(distro, line) == seq!["-d"@, distro, "--exec"@, "sh"@, "-lc"@, line],
{
}

/// An attach takes the focus unless the request asks for none.
pub proof fn an_attach_takes_the_focus(no_focus: bool)
    ensures
        AttachFocus::asked_for(no_focus) == AttachFocus::Take <==> !no_focus,
        AttachFocus::asked_for(no_focus) == AttachFocus::Leave <==> no_focus,
{
}

} // verus!

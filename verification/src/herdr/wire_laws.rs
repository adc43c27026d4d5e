//! What herdr's documents mean: listings, events, sessions and refusals.

use vstd::prelude::*;

#[allow(unused_imports)]
use crate::herdr::events::{
    event_of, exit_reason, is_kept, kind_subscription, lifecycle_kinds, opened, request_line, status_subscription,
    subscribe_request, subscription_answer, EventView, MessageView, RelayView, Spawned, StreamState,
};
#[allow(unused_imports)]
use crate::herdr::model::{Listing, PollErrorView};
#[allow(unused_imports)]
use crate::herdr::wire::{
    entry_fields, envelope_code, first_running, inventory_ids, listed_panes, pane_of_entry, panes_of_entries,
    reply_entries, running_session, said, well_typed_entry, RawPaneView,
};
#[allow(unused_imports)]
use crate::ipc::request_laws::given_or_left_out;
#[allow(unused_imports)]
use crate::json::{document, document_text, lookup, member, Tree};
#[allow(unused_imports)]
use crate::multiplexer::model::{named_status, PaneView};
#[allow(unused_imports)]
use crate::text::{is_blank, occurs, trimmed};

verus! {

/// The truth value given, or nothing where it is left out or null.
pub open spec fn given_flag_or_left_out(value: Option<Tree>, flag: Option<bool>) -> bool {
    match flag {
        Some(b) => value == Some(Tree::Bool(b)),
        None => value is None || value == Some(Tree::Null),
    }
}

/// The fields stand in `members` under their own names.
pub open spec fn told_by_name(members: Seq<(Seq<char>, Tree)>, raw: RawPaneView) -> bool {
    &&& given_or_left_out(lookup(members, "terminal_id"@), raw.terminal_id)
    &&& given_or_left_out(lookup(members, "pane_id"@), raw.pane_id)
    &&& given_or_left_out(lookup(members, "tab_id"@), raw.tab_id)
    &&& given_or_left_out(lookup(members, "agent_status"@), raw.agent_status)
    &&& given_or_left_out(lookup(members, "agent"@), raw.agent)
    &&& given_or_left_out(lookup(members, "display_agent"@), raw.display_agent)
    &&& given_or_left_out(lookup(members, "terminal_title_stripped"@), raw.terminal_title_stripped)
    &&& given_flag_or_left_out(lookup(members, "focused"@), raw.focused)
    &&& given_or_left_out(lookup(members, "cwd"@), raw.cwd)
    &&& given_or_left_out(lookup(members, "foreground_cwd"@), raw.foreground_cwd)
}

/// The fields stand in a row, in this order.
pub open spec fn told_in_a_row(items: Seq<Tree>, raw: RawPaneView) -> bool {
    &&& items.len() == 10
    &&& given_or_left_out(Some(items[0]), raw.terminal_id)
    &&& given_or_left_out(Some(items[1]), raw.pane_id)
    &&& given_or_left_out(Some(items[2]), raw.tab_id)
    &&& given_or_left_out(Some(items[3]), raw.agent_status)
    &&& given_or_left_out(Some(items[4]), raw.agent)
    &&& given_or_left_out(Some(items[5]), raw.display_agent)
    &&& given_or_left_out(Some(items[6]), raw.terminal_title_stripped)
    &&& given_flag_or_left_out(Some(items[7]), raw.focused)
    &&& given_or_left_out(Some(items[8]), raw.cwd)
    &&& given_or_left_out(Some(items[9]), raw.foreground_cwd)
}

/// An entry holds each field under its own name, or as a row of ten in order;
/// a field of another kind spoils the entry.
pub proof fn an_entry_is_read_by_its_names(members: Seq<(Seq<char>, Tree)>, items: Seq<Tree>, raw: RawPaneView)
    ensures
        well_typed_entry(Tree::Object(members)) && entry_fields(Tree::Object(members)) == raw <==> told_by_name(
            members,
            raw,
        ),
        well_typed_entry(Tree::Array(items)) && entry_fields(Tree::Array(items)) == raw <==> told_in_a_row(items, raw),
{
}

/// An entry that is neither an object nor a row is none.
pub proof fn an_entry_is_an_object_or_a_row(tree: Tree)
    requires
        !(tree is Object),
        !(tree is Array),
    ensures
        !well_typed_entry(tree),
{
}

/// An entry is a pane where it names a terminal and a pane, and a state too if
/// it holds an agent. Every entry of a listing of agents does, and one of a
/// listing of panes where it names the agent.
pub proof fn an_entry_is_a_pane_where_it_names_one(raw: RawPaneView, listing: Listing)
    ensures
        pane_of_entry(raw, listing) is Some <==> raw.terminal_id is Some && raw.pane_id is Some && (raw.agent_status
            is Some || (listing is Panes && raw.agent is None)),
{
}

/// A pane is what its entry says: terminal, pane, tab and directories as they
/// stand, the name shown for the agent before the agent's own, the stripped
/// title, both trimmed and left out where blank, and focused only where said so.
pub proof fn a_pane_is_what_its_entry_says(raw: RawPaneView, listing: Listing)
    ensures
        pane_of_entry(raw, listing) matches Some(pane) ==> {
            &&& raw.terminal_id == Some(pane.terminal_id)
            &&& raw.pane_id == Some(pane.pane_id)
            &&& pane.tab_id == raw.tab_id
            &&& pane.cwd == raw.cwd
            &&& pane.foreground_cwd == raw.foreground_cwd
            &&& pane.focused <==> raw.focused == Some(true)
            &&& pane.title == said(raw.terminal_title_stripped)
            &&& raw.display_agent is Some ==> pane.kind == said(raw.display_agent)
            &&& raw.display_agent is None ==> pane.kind == said(raw.agent)
            &&& listing is Agents || raw.agent is Some ==> raw.agent_status is Some && pane.status == Some(
                named_status(raw.agent_status->0),
            )
            &&& listing is Panes && raw.agent is None ==> pane.status is None
        },
{
}

/// A text that is blank says nothing, and any other what is left of it when
/// trimmed.
pub proof fn a_blank_text_says_nothing(text: Seq<char>)
    ensures
        said(None) is None,
        is_blank(text) ==> said(Some(text)) is None,
        !is_blank(text) ==> said(Some(text)) == Some(trimmed(text)),
{
}

proof fn reply_names_differ()
    ensures
        "result"@ != "error"@,
        "agents"@ != "panes"@,
        "type"@ != "pane_id"@,
        "id"@ != "method"@,
        "id"@ != "params"@,
        "method"@ != "params"@,
        "event"@ != "data"@,
        "pane_id"@ != "agent_status"@,
{
    reveal_strlit("result");
    reveal_strlit("error");
    reveal_strlit("agents");
    reveal_strlit("panes");
    reveal_strlit("type");
    reveal_strlit("pane_id");
    reveal_strlit("id");
    reveal_strlit("method");
    reveal_strlit("params");
    reveal_strlit("event");
    reveal_strlit("data");
    reveal_strlit("agent_status");
    assert("result"@.len() != "error"@.len());
    assert("agents"@.len() != "panes"@.len());
    assert("type"@.len() != "pane_id"@.len());
    assert("id"@.len() != "method"@.len());
    assert("id"@.len() != "params"@.len());
    assert("method"@[0] != "params"@[0]);
    assert("event"@.len() != "data"@.len());
    assert("pane_id"@.len() != "agent_status"@.len());
}

/// A listing of agents is read from `result.agents` and one of panes from
/// `result.panes`, entry by entry in order.
pub proof fn a_listing_is_read_from_its_list(
    outer: Seq<(Seq<char>, Tree)>,
    inner: Seq<(Seq<char>, Tree)>,
    items: Seq<Tree>,
    listing: Listing,
)
    requires
        lookup(outer, "result"@) == Some(Tree::Object(inner)),
        listing is Agents ==> lookup(inner, "agents"@) == Some(Tree::Array(items)) && lookup(inner, "panes"@) is None,
        listing is Panes ==> lookup(inner, "panes"@) == Some(Tree::Array(items)) && lookup(inner, "agents"@) is None,
    ensures
        ({
            let entries = reply_entries(Some(Tree::Object(outer)), listing);
            let sound = forall|i: int| 0 <= i < items.len() ==> well_typed_entry(#[trigger] items[i]);
            &&& sound ==> entries.len() == items.len() && forall|i: int|
                0 <= i < items.len() ==> #[trigger] entries[i] == entry_fields(items[i])
            &&& !sound ==> entries.len() == 0
        }),
{
    reply_names_differ();
}

/// A reply that is none lists nothing.
pub proof fn no_reply_lists_nothing(listing: Listing)
    ensures
        listed_panes(None, listing) == Seq::<PaneView>::empty(),
        listed_panes(Some(Tree::Null), listing) == Seq::<PaneView>::empty(),
{
}

/// The panes of a listing are those of its entries that are panes, in order.
pub proof fn the_panes_of_a_listing(raw: Seq<RawPaneView>, last: RawPaneView, listing: Listing)
    ensures
        panes_of_entries(Seq::empty(), listing) == Seq::<PaneView>::empty(),
        pane_of_entry(last, listing) matches Some(pane) ==> panes_of_entries(raw.push(last), listing)
            == panes_of_entries(raw, listing).push(pane),
        pane_of_entry(last, listing) is None ==> panes_of_entries(raw.push(last), listing) == panes_of_entries(
            raw,
            listing,
        ),
{
    assert(raw.push(last).drop_last() =~= raw);
}

/// An inventory is the `terminal_id` of every entry under `result.panes`, and
/// none where one has no such text, where it is blank, or where the reply tells
/// of an error.
pub proof fn an_inventory_is_read_from_the_panes(
    outer: Seq<(Seq<char>, Tree)>,
    inner: Seq<(Seq<char>, Tree)>,
    items: Seq<Tree>,
)
    requires
        lookup(outer, "result"@) == Some(Tree::Object(inner)),
        lookup(inner, "panes"@) == Some(Tree::Array(items)),
    ensures
        ({
            let sound = forall|i: int|
                0 <= i < items.len() ==> (member(#[trigger] items[i], "terminal_id"@) matches Some(Tree::Text(id))
                    && !is_blank(id));
            &&& lookup(outer, "error"@) is None && sound ==> {
                &&& inventory_ids(Some(Tree::Object(outer))) matches Some(ids)
                &&& ids.len() == items.len()
                &&& forall|i: int|
                    0 <= i < items.len() ==> member(items[i], "terminal_id"@) == Some(Tree::Text(#[trigger] ids[i]))
            }
            &&& lookup(outer, "error"@) is Some || !sound ==> inventory_ids(Some(Tree::Object(outer))) is None
        }),
{
    reply_names_differ();
    assert forall|i: int| 0 <= i < items.len() implies (crate::herdr::wire::names_terminal(#[trigger] items[i]) <==> (
    member(items[i], "terminal_id"@) matches Some(Tree::Text(id)) && !is_blank(id))) by {}
    if lookup(outer, "error"@) is None && (forall|i: int|
        0 <= i < items.len() ==> (member(#[trigger] items[i], "terminal_id"@) matches Some(Tree::Text(id))
            && !is_blank(id))) {
        assert(forall|i: int| 0 <= i < items.len() ==> crate::herdr::wire::names_terminal(#[trigger] items[i]));
    } else if lookup(outer, "error"@) is None {
        let i = choose|i: int|
            0 <= i < items.len() && !(member(#[trigger] items[i], "terminal_id"@) matches Some(Tree::Text(id))
                && !is_blank(id));
        assert(!crate::herdr::wire::names_terminal(items[i]));
    }
}

/// A refusal's code is the `code` of its `error`.
pub proof fn a_refusal_is_told_by_its_code(outer: Seq<(Seq<char>, Tree)>, error: Seq<(Seq<char>, Tree)>, code: Seq<char>)
    ensures
        lookup(outer, "error"@) == Some(Tree::Object(error)) && lookup(error, "code"@) == Some(Tree::Text(code))
            ==> envelope_code(Some(Tree::Object(outer))) == Some(code),
        lookup(outer, "error"@) is None ==> envelope_code(Some(Tree::Object(outer))) is None,
        envelope_code(None) is None,
{
}

/// The session in use is the first that runs, by name, where every session of
/// the reply has a name and says whether it runs in a truth value if at all.
pub proof fn the_session_in_use_is_the_first_that_runs(items: Seq<Tree>, at: int, name: Seq<char>)
    requires
        0 <= at < items.len(),
        forall|i: int| 0 <= i < items.len() ==> (#[trigger] items[i]) is Object,
        forall|i: int| 0 <= i < items.len() ==> (member(#[trigger] items[i], "name"@) matches Some(value) && value is Text),
        forall|i: int|
            0 <= i < items.len() ==> (member(#[trigger] items[i], "running"@) matches Some(value) ==> value is Bool),
        member(items[at], "running"@) == Some(Tree::Bool(true)),
        member(items[at], "name"@) == Some(Tree::Text(name)),
        forall|i: int| 0 <= i < at ==> member(#[trigger] items[i], "running"@) != Some(Tree::Bool(true)),
    ensures
        running_session(Some(Tree::Object(seq![("sessions"@, Tree::Array(items))]))) == Some(name),
{
    reveal_with_fuel(lookup, 2);
    first_that_runs(items, at);
    assert forall|i: int| 0 <= i < items.len() implies crate::herdr::wire::well_formed_session(#[trigger] items[i]) by {
        assert(member(items[i], "name"@) matches Some(value) && value is Text);
    }
    assert(items[at] is Object);
}

proof fn first_that_runs(items: Seq<Tree>, at: int)
    requires
        0 <= at < items.len(),
        forall|i: int| 0 <= i < items.len() ==> (#[trigger] items[i]) is Object,
        member(items[at], "running"@) == Some(Tree::Bool(true)),
        forall|i: int| 0 <= i < at ==> member(#[trigger] items[i], "running"@) != Some(Tree::Bool(true)),
    ensures
        first_running(items) == crate::json::text_of(member(items[at], "name"@)),
    decreases at,
{
    assert(items[0] is Object);
    if at > 0 {
        let rest = items.drop_first();
        assert(member(items[0], "running"@) != Some(Tree::Bool(true)));
        assert forall|i: int| 0 <= i < rest.len() implies #[trigger] rest[i] == items[i + 1] by {}
        first_that_runs(rest, at - 1);
    }
}

/// No session is in use where none runs.
pub proof fn no_session_is_in_use_where_none_runs(items: Seq<Tree>)
    requires
        forall|i: int| 0 <= i < items.len() ==> (#[trigger] items[i]) is Object,
        forall|i: int| 0 <= i < items.len() ==> member(#[trigger] items[i], "running"@) != Some(Tree::Bool(true)),
    ensures
        first_running(items) is None,
    decreases items.len(),
{
    if items.len() > 0 {
        assert(items[0] is Object);
        assert(member(items[0], "running"@) != Some(Tree::Bool(true)));
        let rest = items.drop_first();
        assert forall|i: int| 0 <= i < rest.len() implies #[trigger] rest[i] == items[i + 1] by {}
        no_session_is_in_use_where_none_runs(rest);
    }
}

proof fn event_names_differ()
    ensures
        "pane.agent_status_changed"@ != "pane_focused"@,
        "pane.agent_status_changed"@ != "pane_updated"@,
        "pane_focused"@ != "pane_updated"@,
        "event"@ != "data"@,
{
    reveal_strlit("pane.agent_status_changed");
    reveal_strlit("pane_focused");
    reveal_strlit("pane_updated");
    reveal_strlit("event");
    reveal_strlit("data");
    assert("pane.agent_status_changed"@.len() != "pane_focused"@.len());
    assert("pane.agent_status_changed"@.len() != "pane_updated"@.len());
    assert("pane_focused"@[5] != "pane_updated"@[5]);
    assert("event"@.len() != "data"@.len());
}

/// An event with a kind of its own is read from its data, and is none without
/// what it needs there: a state of a pane, a focused pane, or a pane described
/// anew. Every other kind is a change that is not told further.
pub proof fn an_event_is_read_by_its_kind(members: Seq<(Seq<char>, Tree)>, data: Seq<(Seq<char>, Tree)>, kind: Seq<char>, pane_id: Seq<char>, status: Seq<char>)
    requires
        lookup(members, "event"@) == Some(Tree::Text(kind)),
        lookup(members, "data"@) == Some(Tree::Object(data)),
    ensures
        ({
            let event = event_of(Some(Tree::Object(members)));
            let named = lookup(data, "pane_id"@) == Some(Tree::Text(pane_id));
            let told = lookup(data, "agent_status"@) == Some(Tree::Text(status));
            &&& kind == "pane.agent_status_changed"@ ==> {
                &&& named && told ==> event == Some(EventView::Status { pane_id, status: named_status(status) })
                &&& !(lookup(data, "pane_id"@) matches Some(Tree::Text(_))) ==> event is None
                &&& !(lookup(data, "agent_status"@) matches Some(Tree::Text(_))) ==> event is None
            }
            &&& kind == "pane_focused"@ ==> {
                &&& named ==> event == Some(EventView::Focused { pane_id })
                &&& !(lookup(data, "pane_id"@) matches Some(Tree::Text(_))) ==> event is None
            }
            &&& kind == "pane_updated"@ ==> {
                &&& lookup(data, "pane"@) matches Some(entry) ==> if well_typed_entry(entry) && pane_of_entry(
                    entry_fields(entry),
                    Listing::Panes,
                ) is Some {
                    event == Some(
                        EventView::Updated(pane_of_entry(entry_fields(entry), Listing::Panes)->0),
                    )
                } else {
                    event is None
                }
                &&& lookup(data, "pane"@) is None ==> event is None
            }
            &&& kind != "pane.agent_status_changed"@ && kind != "pane_focused"@ && kind != "pane_updated"@ ==> event
                == Some(EventView::Changed)
        }),
{
    event_names_differ();
}

/// A line without a kind is no event.
pub proof fn a_line_without_a_kind_is_no_event(tree: Tree)
    requires
        tree matches Tree::Object(members) ==> !(lookup(members, "event"@) matches Some(Tree::Text(_))),
        !(tree is Array),
    ensures
        event_of(Some(tree)) is None,
        event_of(None) is None,
{
}

/// The lifecycle stream follows these nine kinds.
pub proof fn the_lifecycle_kinds()
    ensures
        lifecycle_kinds() == seq![
            "pane.created"@,
            "pane.closed"@,
            "pane.updated"@,
            "pane.focused"@,
            "pane.moved"@,
            "pane.exited"@,
            "pane.agent_detected"@,
            "tab.closed"@,
            "workspace.closed"@,
        ],
{
}

/// A subscription asks `events.subscribe` for its list, and each entry names
/// its kind; one to a pane's states names the pane too.
pub proof fn a_subscription_asks_for_its_list(subscriptions: Seq<Tree>, kind: Seq<char>, pane_id: Seq<char>)
    ensures
        ({
            let request = subscribe_request(subscriptions);
            &&& member(request, "method"@) == Some(Tree::Text("events.subscribe"@))
            &&& member(request, "id"@) == Some(Tree::Text("alacritree:events"@))
            &&& member(request, "params"@) matches Some(params) && member(params, "subscriptions"@) == Some(
                Tree::Array(subscriptions),
            )
        }),
        member(kind_subscription(kind), "type"@) == Some(Tree::Text(kind)),
        member(status_subscription(pane_id), "type"@) == Some(Tree::Text("pane.agent_status_changed"@)),
        member(status_subscription(pane_id), "pane_id"@) == Some(Tree::Text(pane_id)),
{
    reply_names_differ();
    reveal_with_fuel(lookup, 4);
}

/// A request is one line: its document, then a line feed.
pub proof fn a_request_is_one_line(request: Tree)
    ensures
        request_line(request) == document_text(request).push('\n'),
{
    reveal_strlit("\n");
    assert(request_line(request) =~= document_text(request).push('\n'));
}

/// A subscription has started where the answer's result says so; an error is
/// told by its code, and anything else is unexpected.
pub proof fn a_subscription_is_answered(members: Seq<(Seq<char>, Tree)>)
    ensures
        ({
            let answer = subscription_answer(Some(Tree::Object(members)));
            let error = lookup(members, "error"@);
            let result = lookup(members, "result"@);
            &&& error is None || error == Some(Tree::Null) ==> {
                &&& result matches Some(Tree::Object(inner)) ==> if lookup(inner, "type"@) == Some(
                    Tree::Text("subscription_started"@),
                ) {
                    answer is Ok
                } else {
                    answer == Err::<(), Seq<char>>("unexpected_reply"@)
                }
                &&& !(result is Some && result->0 is Object) ==> answer == Err::<(), Seq<char>>("unexpected_reply"@)
            }
            &&& error matches Some(Tree::Object(inner)) ==> match lookup(inner, "code"@) {
                Some(Tree::Text(code)) => answer == Err::<(), Seq<char>>(code),
                _ => answer == Err::<(), Seq<char>>("unexpected_reply"@),
            }
        }),
        subscription_answer(None) == Err::<(), Seq<char>>("unexpected_reply"@),
{
    reply_names_differ();
}

/// Documents may also be rows of their values in order: an answer of its result
/// and its error, an event of its kind and its data, a refusal of its error,
/// and an error of its code.
pub proof fn documents_may_be_rows(
    kind: Seq<char>,
    data: Seq<(Seq<char>, Tree)>,
    code: Seq<char>,
    inner: Seq<(Seq<char>, Tree)>,
    pane_id: Seq<char>,
    items: Seq<Tree>,
)
    ensures
        lookup(inner, "type"@) == Some(Tree::Text("subscription_started"@)) ==> subscription_answer(
            Some(Tree::Array(seq![Tree::Object(inner), Tree::Null])),
        ) is Ok,
        subscription_answer(Some(Tree::Array(seq![Tree::Null, Tree::Array(seq![Tree::Text(code)])]))) == Err::<
            (),
            Seq<char>,
        >(code),
        items.len() != 2 ==> subscription_answer(Some(Tree::Array(items))) == Err::<(), Seq<char>>(
            "unexpected_reply"@,
        ),
        lookup(data, "pane_id"@) == Some(Tree::Text(pane_id)) ==> event_of(
            Some(Tree::Array(seq![Tree::Text("pane_focused"@), Tree::Object(data)])),
        ) == Some(EventView::Focused { pane_id }),
        kind != "pane.agent_status_changed"@ && kind != "pane_focused"@ && kind != "pane_updated"@ ==> event_of(
            Some(Tree::Array(seq![Tree::Text(kind)])),
        ) == Some(EventView::Changed),
        items.len() == 0 || items.len() > 2 ==> event_of(Some(Tree::Array(items))) is None,
        envelope_code(Some(Tree::Array(seq![Tree::Array(seq![Tree::Text(code)])]))) == Some(code),
        items.len() != 1 ==> envelope_code(Some(Tree::Array(items))) is None,
{
    event_names_differ();
    reply_names_differ();
}

/// A bridge that could not connect found no server; one that ended otherwise
/// is no bridge.
pub proof fn why_a_bridge_ended(before: Seq<char>, after: Seq<char>, stderr: Seq<char>)
    ensures
        exit_reason(before + "failed to connect"@ + after) == PollErrorView::Server("server_not_running"@),
        !occurs("failed to connect"@, stderr) ==> exit_reason(stderr) == PollErrorView::Absent("bridge_unavailable"@),
{
    crate::text_laws::a_part_stands_between("failed to connect"@, before, after);
}

/// A bridge is kept where its output is read and its request was sent, or it
/// ended by itself and can say why.
pub proof fn when_a_bridge_is_kept(sent: bool, exited: bool)
    ensures
        !is_kept(false, sent, exited),
        is_kept(true, true, exited),
        is_kept(true, sent, true),
        !is_kept(true, false, false),
{
}

/// The first line that says a subscription started starts the relay; before
/// that a refusal is kept, and after it every line is an event or nothing.
pub proof fn a_relay_starts_with_its_answer(relay: RelayView, line: Seq<char>, code: Seq<char>)
    ensures
        ({
            let (after, message) = relay.told(line);
            &&& !relay.started && subscription_answer(document(line)) is Ok ==> after.started && message == Some(
                MessageView::Started,
            )
            &&& !relay.started && subscription_answer(document(line)) == Err::<(), Seq<char>>(code) ==> !after.started
                && after.refusal == Some(code) && message is None
            &&& relay.started ==> after == relay && (match event_of(document(line)) {
                Some(event) => message == Some(MessageView::Event(event)),
                None => message is None,
            })
        }),
        !RelayView::silent().started,
        RelayView::silent().refusal is None,
{
}

/// A relay that started ends without a reason; one that did not ends with its
/// refusal, or with what the bridge printed.
pub proof fn a_relay_ends_with_its_reason(relay: RelayView, stderr: Seq<char>)
    ensures
        relay.started ==> relay.ended(stderr) == MessageView::Ended(None),
        !relay.started && relay.refusal is Some ==> relay.ended(stderr) == MessageView::Ended(
            Some(PollErrorView::Server(relay.refusal->0)),
        ),
        !relay.started && relay.refusal is None ==> relay.ended(stderr) == MessageView::Ended(
            Some(exit_reason(stderr)),
        ),
{
}

/// What a relay passes on is what each line says, in order, and its end last.
pub proof fn a_relay_passes_on_in_order(relay: RelayView, line: Seq<char>, rest: Seq<Seq<char>>, stderr: Seq<char>)
    ensures
        relay.run(Seq::empty(), stderr) == seq![relay.ended(stderr)],
        relay.told(line).1 matches Some(message) ==> relay.run(seq![line] + rest, stderr) == seq![message] + relay.told(
            line,
        ).0.run(rest, stderr),
        relay.told(line).1 is None ==> relay.run(seq![line] + rest, stderr) == relay.told(line).0.run(rest, stderr),
{
    let lines = seq![line] + rest;
    assert(lines.drop_first() =~= rest);
    assert(lines[0] == line);
}

/// A stream whose bridge runs is open; one whose bridge could not start ends at
/// once, with the reason.
pub proof fn how_a_stream_opens(error: crate::herdr::model::PollError)
    ensures
        opened(Spawned::Waiting) == (StreamState::Opening, None::<MessageView>),
        opened(Spawned::Running) == (StreamState::Open, None::<MessageView>),
        opened(Spawned::Refused(error)) == (StreamState::Closed, Some(MessageView::Ended(Some(error@)))),
        opened(Spawned::Panicked) == (
            StreamState::Closed,
            Some(MessageView::Ended(Some(PollErrorView::Absent("spawn_panicked"@)))),
        ),
{
}

} // verus!

//! herdr's event stream: what a subscription asks for, and what each line that
//! comes back means.
//!
//! herdr serves one request per connection and a subscription keeps its
//! connection for life, so every stream is its own bridge.

use vstd::prelude::*;

use crate::herdr::model::{Listing, PollError};
#[allow(unused_imports)]
use crate::herdr::model::PollErrorView;
use crate::herdr::wire::{one_text_in, RawPane};
#[allow(unused_imports)]
use crate::herdr::wire::{entry_fields, one_text, opt_pane, pane_of_entry, well_typed_entry};
use crate::json::{array, object, text, Json};
#[allow(unused_imports)]
use crate::json::{document, document_text, field, is_record, member, member_trees, opt_tree, text_of, trees, Tree};
use crate::multiplexer::model::{Pane, PaneStatus};
#[allow(unused_imports)]
use crate::multiplexer::model::{named_status, PaneView};
use crate::text::{contains, same};
#[allow(unused_imports)]
use crate::text::{occurs, opt_text, texts};

verus! {

/// One event, reduced to what the endpoint does about it.
#[derive(Debug, PartialEq, Eq)]
pub enum Event {
    Status { pane_id: String, status: PaneStatus },
    Focused { pane_id: String },
    Updated(Pane),
    /// Something the listing has to be read again to learn.
    Changed,
}

/// An event with the characters of its texts.
pub enum EventView {
    Status { pane_id: Seq<char>, status: PaneStatus },
    Focused { pane_id: Seq<char> },
    Updated(PaneView),
    Changed,
}

impl View for Event {
    type V = EventView;

    open spec fn view(&self) -> EventView {
        match self {
            Event::Status { pane_id, status } => EventView::Status { pane_id: pane_id@, status: *status },
            Event::Focused { pane_id } => EventView::Focused { pane_id: pane_id@ },
            Event::Updated(pane) => EventView::Updated(pane@),
            Event::Changed => EventView::Changed,
        }
    }
}

impl Clone for Event {
    fn clone(&self) -> (r: Self)
        ensures
            r == *self,
    {
        match self {
            Event::Status { pane_id, status } => Event::Status { pane_id: pane_id.clone(), status: *status },
            Event::Focused { pane_id } => Event::Focused { pane_id: pane_id.clone() },
            Event::Updated(pane) => Event::Updated(pane.clone()),
            Event::Changed => Event::Changed,
        }
    }
}

/// The view of an optional event.
pub open spec fn opt_event(e: Option<Event>) -> Option<EventView> {
    match e {
        Some(event) => Some(event@),
        None => None,
    }
}

/// What one stream tells the endpoint that owns it.
#[derive(Debug, PartialEq, Eq)]
pub enum Message {
    /// herdr accepted the subscription, and events follow.
    Started,
    Event(Event),
    /// The stream is over.  A stream that never started says why.
    Ended(Option<PollError>),
}

/// A message with the characters of its texts.
pub enum MessageView {
    Started,
    Event(EventView),
    Ended(Option<PollErrorView>),
}

impl View for Message {
    type V = MessageView;

    open spec fn view(&self) -> MessageView {
        match self {
            Message::Started => MessageView::Started,
            Message::Event(event) => MessageView::Event(event@),
            Message::Ended(Some(error)) => MessageView::Ended(Some(error@)),
            Message::Ended(None) => MessageView::Ended(None),
        }
    }
}

/// The view of an optional message.
pub open spec fn opt_message(m: Option<Message>) -> Option<MessageView> {
    match m {
        Some(message) => Some(message@),
        None => None,
    }
}

/// Every kind that can change which panes a side has or how one renders,
/// apart from agent status, which herdr only streams per pane.
pub open spec fn lifecycle_kinds() -> Seq<Seq<char>> {
    seq![
        "pane.created"@,
        "pane.closed"@,
        "pane.updated"@,
        "pane.focused"@,
        "pane.moved"@,
        "pane.exited"@,
        "pane.agent_detected"@,
        "tab.closed"@,
        "workspace.closed"@,
    ]
}

/// The subscription to one kind of event.
pub open spec fn kind_subscription(kind: Seq<char>) -> Tree {
    Tree::Object(seq![("type"@, Tree::Text(kind))])
}

/// The subscription to one pane's agent status.
pub open spec fn status_subscription(pane_id: Seq<char>) -> Tree {
    Tree::Object(
        seq![("type"@, Tree::Text("pane.agent_status_changed"@)), ("pane_id"@, Tree::Text(pane_id))],
    )
}

/// A request that subscribes to the given kinds.
pub open spec fn subscribe_request(subscriptions: Seq<Tree>) -> Tree {
    Tree::Object(
        seq![
            ("id"@, Tree::Text("alacritree:events"@)),
            ("method"@, Tree::Text("events.subscribe"@)),
            ("params"@, Tree::Object(seq![("subscriptions"@, Tree::Array(subscriptions))])),
        ],
    )
}

/// A document as one line that herdr reads.
pub open spec fn request_line(request: Tree) -> Seq<char> {
    document_text(request) + "\n"@
}

/// The document as one line.
pub fn line_of(request: &Json) -> (r: String)
    ensures
        r@ == request_line(request@),
{
    let mut line = request.line();
    line.append("\n");
    line
}

fn subscription(kind: &str) -> (r: Json)
    ensures
        r@ == kind_subscription(kind@),
{
    let mut members: Vec<(String, Json)> = Vec::new();
    members.push(("type".to_owned(), text(kind)));
    assert(member_trees(members@) =~= seq![("type"@, Tree::Text(kind@))]);
    object(members)
}

fn request(subscriptions: Vec<Json>) -> (r: Json)
    ensures
        r@ == subscribe_request(trees(subscriptions@)),
{
    let mut params: Vec<(String, Json)> = Vec::new();
    let list = array(subscriptions);
    params.push(("subscriptions".to_owned(), list));
    assert(member_trees(params@) =~= seq![("subscriptions"@, Tree::Array(trees(subscriptions@)))]);
    let mut members: Vec<(String, Json)> = Vec::new();
    members.push(("id".to_owned(), text("alacritree:events")));
    members.push(("method".to_owned(), text("events.subscribe")));
    let params = object(params);
    members.push(("params".to_owned(), params));
    assert(member_trees(members@) =~= seq![
        ("id"@, Tree::Text("alacritree:events"@)),
        ("method"@, Tree::Text("events.subscribe"@)),
        ("params"@, params@),
    ]);
    object(members)
}

/// The subscription every side holds while its herdr is up.
pub fn lifecycle_request() -> (r: String)
    ensures
        r@ == request_line(
            subscribe_request(lifecycle_kinds().map_values(|kind: Seq<char>| kind_subscription(kind))),
        ),
{
    let kinds: [&str; 9] = [
        "pane.created",
        "pane.closed",
        "pane.updated",
        "pane.focused",
        "pane.moved",
        "pane.exited",
        "pane.agent_detected",
        "tab.closed",
        "workspace.closed",
    ];
    let ghost want = lifecycle_kinds().map_values(|kind: Seq<char>| kind_subscription(kind));
    let mut list: Vec<Json> = Vec::new();
    let mut i: usize = 0;
    while i < 9
        invariant
            i <= 9,
            kinds@.len() == 9,
            forall|k: int| 0 <= k < 9 ==> #[trigger] kinds@[k]@ == lifecycle_kinds()[k],
            want == lifecycle_kinds().map_values(|kind: Seq<char>| kind_subscription(kind)),
            trees(list@) == want.take(i as int),
        decreases 9 - i,
    {
        let ghost before = list@;
        list.push(subscription(kinds[i]));
        assert(kinds@[i as int]@ == lifecycle_kinds()[i as int]);
        assert(trees(list@) == trees(before).push(want[i as int]));
        assert(want.take(i + 1) == want.take(i as int).push(want[i as int]));
        i += 1;
    }
    assert(want.take(9) == want);
    line_of(&request(list))
}

/// Agent status for each of `pane_ids`.  herdr refuses the whole request when
/// one of them is unknown to it.
pub fn status_request(pane_ids: &Vec<String>) -> (r: String)
    ensures
        r@ == request_line(
            subscribe_request(texts(pane_ids@).map_values(|id: Seq<char>| status_subscription(id))),
        ),
{
    let ghost want = texts(pane_ids@).map_values(|id: Seq<char>| status_subscription(id));
    let mut list: Vec<Json> = Vec::new();
    let mut i: usize = 0;
    while i < pane_ids.len()
        invariant
            i <= pane_ids@.len(),
            want == texts(pane_ids@).map_values(|id: Seq<char>| status_subscription(id)),
            trees(list@) == want.take(i as int),
        decreases pane_ids@.len() - i,
    {
        let ghost before = list@;
        let mut members: Vec<(String, Json)> = Vec::new();
        members.push(("type".to_owned(), text("pane.agent_status_changed")));
        members.push(("pane_id".to_owned(), text(&pane_ids[i])));
        assert(member_trees(members@) =~= seq![
            ("type"@, Tree::Text("pane.agent_status_changed"@)),
            ("pane_id"@, Tree::Text(pane_ids@[i as int]@)),
        ]);
        list.push(object(members));
        assert(texts(pane_ids@)[i as int] == pane_ids@[i as int]@);
        assert(trees(list@) == trees(before).push(want[i as int]));
        assert(want.take(i + 1) == want.take(i as int).push(want[i as int]));
        i += 1;
    }
    assert(want.take(want.len() as int) == want);
    line_of(&request(list))
}

/// What a line that is no answer to a subscription is called.
pub const UNEXPECTED: &'static str = "unexpected_reply";

/// The field that is neither absent nor null.
pub open spec fn present(tree: Tree, name: Seq<char>, place: nat) -> Option<Tree> {
    match field(tree, name, place) {
        Some(Tree::Null) => None,
        other => other,
    }
}

/// What the first line of a subscription answers: the ack, or the code of the
/// error herdr refused it with.
pub open spec fn subscription_answer(reply: Option<Tree>) -> Result<(), Seq<char>> {
    match reply {
        Some(reply) => if !is_record(reply, 2, 2) {
            Err(UNEXPECTED@)
        } else {
            match present(reply, "error"@, 1) {
                Some(error) => match one_text(error, "code"@) {
                    Some(code) => Err(code),
                    None => Err(UNEXPECTED@),
                },
                None => match present(reply, "result"@, 0) {
                    Some(result) => if text_of(member(result, "type"@)) == Some(
                        "subscription_started"@,
                    ) {
                        Ok(())
                    } else {
                        Err(UNEXPECTED@)
                    },
                    None => Err(UNEXPECTED@),
                },
            }
        },
        None => Err(UNEXPECTED@),
    }
}

/// The characters of an answer's refusal.
pub open spec fn answer_view(r: Result<(), String>) -> Result<(), Seq<char>> {
    match r {
        Ok(_) => Ok(()),
        Err(code) => Err(code@),
    }
}

/// The field that is neither absent nor null.
pub fn present_in<'a>(json: &'a Json, name: &str, place: usize) -> (r: Option<&'a Json>)
    ensures
        crate::json::opt_ref_tree(r) == present(json@, name@, place as nat),
{
    match json.field(name, place) {
        Some(Json::Null) => None,
        other => other,
    }
}

/// The answer to a subscription that has been read.
pub fn reply_in(reply: &Option<Json>) -> (r: Result<(), String>)
    ensures
        answer_view(r) == subscription_answer(opt_tree(*reply)),
{
    let reply = match reply {
        Some(reply) => reply,
        None => return Err(UNEXPECTED.to_owned()),
    };
    if !reply.is_record(2, 2) {
        return Err(UNEXPECTED.to_owned());
    }
    if let Some(error) = present_in(reply, "error", 1) {
        return match one_text_in(error, "code") {
            Some(code) => Err(code),
            None => Err(UNEXPECTED.to_owned()),
        };
    }
    match present_in(reply, "result", 0) {
        Some(result) => match result.text_at("type") {
            Some(kind) => if same(&kind, "subscription_started") {
                Ok(())
            } else {
                Err(UNEXPECTED.to_owned())
            },
            None => Err(UNEXPECTED.to_owned()),
        },
        None => Err(UNEXPECTED.to_owned()),
    }
}

/// The first line a subscription answers with: the ack, or the code of the
/// error herdr refused it with.  A field that is given twice counts with its
/// last value.
pub fn decode_reply(line: &str) -> (r: Result<(), String>)
    ensures
        answer_view(r) == subscription_answer(document(line@)),
{
    reply_in(&Json::parse(line))
}

/// The data an event carries: null where it carries none.
pub open spec fn event_data(envelope: Tree) -> Tree {
    match field(envelope, "data"@, 1) {
        Some(data) => data,
        None => Tree::Null,
    }
}

/// The pane an update describes, in the shape a pane listing prints.
pub open spec fn updated_pane(entry: Option<Tree>) -> Option<PaneView> {
    match entry {
        Some(tree) => if well_typed_entry(tree) {
            pane_of_entry(entry_fields(tree), Listing::Panes)
        } else {
            None
        },
        None => None,
    }
}

/// The event a line stands for: a kind with no patch of its own sends the
/// reader back to the listing, and a line that is no event stands for none.
pub open spec fn event_of(line: Option<Tree>) -> Option<EventView> {
    match line {
        Some(envelope) => if !is_record(envelope, 1, 2) {
            None
        } else {
            let data = event_data(envelope);
            match text_of(field(envelope, "event"@, 0)) {
                None => None,
                Some(kind) => if kind == "pane.agent_status_changed"@ {
                    match (text_of(member(data, "pane_id"@)), text_of(member(data, "agent_status"@))) {
                        (Some(pane_id), Some(status)) => Some(
                            EventView::Status { pane_id, status: named_status(status) },
                        ),
                        _ => None,
                    }
                } else if kind == "pane_focused"@ {
                    match text_of(member(data, "pane_id"@)) {
                        Some(pane_id) => Some(EventView::Focused { pane_id }),
                        None => None,
                    }
                } else if kind == "pane_updated"@ {
                    match updated_pane(member(data, "pane"@)) {
                        Some(pane) => Some(EventView::Updated(pane)),
                        None => None,
                    }
                } else {
                    Some(EventView::Changed)
                },
            }
        },
        None => None,
    }
}

/// The pane an update describes.
pub fn parse_pane_info(entry: &Json) -> (r: Option<Pane>)
    ensures
        opt_pane(r) == updated_pane(Some(entry@)),
{
    match RawPane::decode(entry) {
        Ok(raw) => raw.into_agent(Listing::Panes),
        Err(_) => None,
    }
}

/// The event of a line that has been read.
pub fn event_in(line: &Option<Json>) -> (r: Option<Event>)
    ensures
        opt_event(r) == event_of(opt_tree(*line)),
{
    let envelope = match line {
        Some(envelope) => envelope,
        None => return None,
    };
    if !envelope.is_record(1, 2) {
        return None;
    }
    let kind = match envelope.text_in("event", 0) {
        Some(kind) => kind,
        None => return None,
    };
    let null = Json::Null;
    let data = match envelope.field("data", 1) {
        Some(data) => data,
        None => &null,
    };
    if same(&kind, "pane.agent_status_changed") {
        match (data.text_at("pane_id"), data.text_at("agent_status")) {
            (Some(pane_id), Some(status)) => Some(
                Event::Status { pane_id, status: PaneStatus::parse(&status) },
            ),
            _ => None,
        }
    } else if same(&kind, "pane_focused") {
        match data.text_at("pane_id") {
            Some(pane_id) => Some(Event::Focused { pane_id }),
            None => None,
        }
    } else if same(&kind, "pane_updated") {
        match data.get("pane") {
            Some(entry) => match parse_pane_info(entry) {
                Some(pane) => Some(Event::Updated(pane)),
                None => None,
            },
            None => None,
        }
    } else {
        Some(Event::Changed)
    }
}

/// One streamed event.  A line that is not an event is dropped rather than
/// guessed at.  A field that is given twice counts with its last value.
pub fn decode_event(line: &str) -> (r: Option<Event>)
    ensures
        opt_event(r) == event_of(document(line@)),
{
    event_in(&Json::parse(line))
}

/// Why a bridge that never started a stream exited.
pub open spec fn exit_reason(stderr: Seq<char>) -> PollErrorView {
    if occurs("failed to connect"@, stderr) {
        PollErrorView::Server("server_not_running"@)
    } else {
        PollErrorView::Absent("bridge_unavailable"@)
    }
}

/// Why a bridge that never started a stream exited.  The bridge prints its
/// connect failure in prose, and a herdr with no server running is the one
/// case worth waiting out.
pub fn classify_exit(stderr: &str) -> (r: PollError)
    ensures
        r@ == exit_reason(stderr@),
{
    if contains(stderr, "failed to connect") {
        PollError::Server("server_not_running".to_owned())
    } else {
        PollError::Absent("bridge_unavailable")
    }
}

/// One bridge's lines as they are read: whether herdr accepted the
/// subscription, and the code it last refused with.
pub struct Relay {
    pub started: bool,
    pub refusal: Option<String>,
}

/// A relay with the characters of its refusal.
pub struct RelayView {
    pub started: bool,
    pub refusal: Option<Seq<char>>,
}

impl View for Relay {
    type V = RelayView;

    open spec fn view(&self) -> RelayView {
        RelayView { started: self.started, refusal: opt_text(self.refusal) }
    }
}

impl RelayView {
    /// A bridge that has said nothing yet.
    pub open spec fn silent() -> Self {
        RelayView { started: false, refusal: None }
    }

    /// One line on, and the message it stands for.  Before the ack a line
    /// either starts the stream or is remembered as a refusal; after it a line
    /// is an event or nothing.
    pub open spec fn told(self, line: Seq<char>) -> (Self, Option<MessageView>) {
        if self.started {
            (
                self,
                match event_of(document(line)) {
                    Some(event) => Some(MessageView::Event(event)),
                    None => None,
                },
            )
        } else {
            match subscription_answer(document(line)) {
                Ok(_) => (RelayView { started: true, ..self }, Some(MessageView::Started)),
                Err(code) => (RelayView { refusal: Some(code), ..self }, None),
            }
        }
    }

    /// What the bridge's exit stands for.  A stream that never started says
    /// why: herdr's refusal, or what the bridge printed.
    pub open spec fn ended(self, stderr: Seq<char>) -> MessageView {
        MessageView::Ended(
            if self.started {
                None
            } else {
                match self.refusal {
                    Some(code) => Some(PollErrorView::Server(code)),
                    None => Some(exit_reason(stderr)),
                }
            },
        )
    }

    /// The messages of a bridge from here to its exit: those of its lines in
    /// order, and its end.
    pub open spec fn run(self, lines: Seq<Seq<char>>, stderr: Seq<char>) -> Seq<MessageView>
        decreases lines.len(),
    {
        if lines.len() == 0 {
            seq![self.ended(stderr)]
        } else {
            let (next, message) = self.told(lines[0]);
            let rest = next.run(lines.drop_first(), stderr);
            match message {
                Some(message) => seq![message] + rest,
                None => rest,
            }
        }
    }
}

/// Events and then an end that gives no reason: what is left of a stream that
/// has started.
pub open spec fn streams_out(messages: Seq<MessageView>) -> bool {
    &&& messages.len() > 0
    &&& messages.last() == MessageView::Ended(None)
    &&& forall|i: int| 0 <= i < messages.len() - 1 ==> (#[trigger] messages[i]) is Event
}

proof fn a_started_relay_streams_out(relay: RelayView, lines: Seq<Seq<char>>, stderr: Seq<char>)
    requires
        relay.started,
    ensures
        streams_out(relay.run(lines, stderr)),
    decreases lines.len(),
{
    if lines.len() > 0 {
        let (next, message) = relay.told(lines[0]);
        a_started_relay_streams_out(next, lines.drop_first(), stderr);
        let rest = next.run(lines.drop_first(), stderr);
        if let Some(message) = message {
            let all = seq![message] + rest;
            assert forall|i: int| 0 <= i < all.len() - 1 implies (#[trigger] all[i]) is Event by {
                if i > 0 {
                    assert(all[i] == rest[i - 1]);
                }
            }
            assert(all.last() == rest.last());
        }
    }
}

/// Whatever a bridge prints, its messages end once, and with its end: either
/// the stream never starts and the end, which is all there is, says why; or
/// one ack comes first, then nothing but events, and the end gives no reason.
pub proof fn a_bridge_starts_once_and_ends_once(
    relay: RelayView,
    lines: Seq<Seq<char>>,
    stderr: Seq<char>,
)
    requires
        !relay.started,
    ensures
        ({
            let messages = relay.run(lines, stderr);
            ||| messages.len() == 1 && messages[0] matches MessageView::Ended(Some(_))
            ||| {
                &&& messages.len() > 1
                &&& messages[0] is Started
                &&& streams_out(messages.drop_first())
            }
        }),
    decreases lines.len(),
{
    if lines.len() > 0 {
        let (next, message) = relay.told(lines[0]);
        let rest = next.run(lines.drop_first(), stderr);
        if next.started {
            a_started_relay_streams_out(next, lines.drop_first(), stderr);
            let all = seq![MessageView::Started] + rest;
            assert(all.drop_first() =~= rest);
        } else {
            a_bridge_starts_once_and_ends_once(next, lines.drop_first(), stderr);
        }
    }
}

impl Relay {
    /// A bridge that has said nothing yet.
    pub fn new() -> (r: Self)
        ensures
            r@ == RelayView::silent(),
    {
        Relay { started: false, refusal: None }
    }

    /// Read one line.  Before the ack a line either starts the stream or is
    /// remembered as a refusal; after it a line is an event or nothing.
    pub fn line(&mut self, line: &str) -> (r: Option<Message>)
        ensures
            (final(self)@, opt_message(r)) == old(self)@.told(line@),
    {
        if self.started {
            return match decode_event(line) {
                Some(event) => Some(Message::Event(event)),
                None => None,
            };
        }
        match decode_reply(line) {
            Ok(_) => {
                self.started = true;
                Some(Message::Started)
            },
            Err(code) => {
                self.refusal = Some(code);
                None
            },
        }
    }

    /// The bridge has exited.  A stream that never started says why: herdr's
    /// refusal, or what the bridge printed.
    pub fn ended(&self, stderr: &str) -> (r: Message)
        ensures
            r@ == self@.ended(stderr@),
    {
        if self.started {
            return Message::Ended(None);
        }
        match &self.refusal {
            Some(code) => Message::Ended(Some(PollError::Server(code.clone()))),
            None => Message::Ended(Some(classify_exit(stderr))),
        }
    }
}

/// A stream from the spawn that starts its bridge to the bridge's exit.
#[derive(Debug, Clone, Copy, PartialEq, Eq, Structural)]
pub enum StreamState {
    /// The bridge is being spawned, since a `wsl.exe` start can take a loaded
    /// machine long enough to drop frames.
    Opening,
    Open,
    Closed,
}

/// What came of spawning a bridge.
pub enum Spawned {
    Waiting,
    Running,
    Refused(PollError),
    Panicked,
}

/// A bridge is kept.
pub open spec fn is_kept(reader_up: bool, sent: bool, exited: bool) -> bool {
    reader_up && (sent || exited)
}

/// Whether a bridge just spawned is kept.  One whose output nobody reads is
/// not, nor one that runs on without its request; a bridge that died before
/// reading its request still reports why on stderr.
pub fn keeps_bridge(reader_up: bool, sent: bool, exited: bool) -> (r: bool)
    ensures
        r == is_kept(reader_up, sent, exited),
        r == (reader_up && (sent || exited)),
{
    reader_up && (sent || exited)
}

/// What a stream is once its bridge came to something, and what is told of it.
pub open spec fn opened(outcome: Spawned) -> (StreamState, Option<MessageView>) {
    match outcome {
        Spawned::Waiting => (StreamState::Opening, None),
        Spawned::Running => (StreamState::Open, None),
        Spawned::Refused(error) => (StreamState::Closed, Some(MessageView::Ended(Some(error@)))),
        Spawned::Panicked => (
            StreamState::Closed,
            Some(MessageView::Ended(Some(PollErrorView::Absent("spawn_panicked"@)))),
        ),
    }
}

/// A bridge being spawned, one step on.  A bridge that could not start reads
/// as a stream that ended, so its owner has one exit path to handle.
pub fn opening_step(outcome: Spawned) -> (r: (StreamState, Option<Message>))
    ensures
        (r.0, opt_message(r.1)) == opened(outcome),
        match outcome {
            Spawned::Waiting => r.0 == StreamState::Opening && r.1 is None,
            Spawned::Running => r.0 == StreamState::Open && r.1 is None,
            Spawned::Refused(error) => r.0 == StreamState::Closed && r.1 == Some(Message::Ended(Some(error))),
            Spawned::Panicked => r.0 == StreamState::Closed && opt_message(r.1) == Some(
                MessageView::Ended(Some(PollErrorView::Absent("spawn_panicked"@))),
            ),
        },
{
    match outcome {
        Spawned::Waiting => (StreamState::Opening, None),
        Spawned::Running => (StreamState::Open, None),
        Spawned::Refused(error) => (StreamState::Closed, Some(Message::Ended(Some(error)))),
        Spawned::Panicked => (
            StreamState::Closed,
            Some(Message::Ended(Some(PollError::Absent("spawn_panicked")))),
        ),
    }
}

} // verus!

//! What herdr's CLI prints, and how it becomes a pane.
//!
//! herdr prints success on stdout and errors on stderr, and its field set
//! grows between releases, so every reader here tolerates unknown fields and a
//! reply that carries none of what was asked for.
//!
//! A reply is read as one document before any field of it is: a field that is
//! given twice counts with its last value, and a text that `serde_json` does
//! not read as a document, be it for a number out of range or for its nesting
//! in a field nobody asks for, is no reply.

use vstd::prelude::*;

use crate::herdr::model::{Agent, Listing, PollError};
#[allow(unused_imports)]
use crate::herdr::model::PollErrorView;
use crate::json::{Json, Malformed};
#[allow(unused_imports)]
use crate::json::{bool_field, document, field, is_record, member, opt_tree, text_field, text_of, Tree};
#[allow(unused_imports)]
use crate::multiplexer::model::{named_status, panes, PaneView};
use crate::multiplexer::model::{Pane, PaneStatus};
use crate::text::{blank, trim};
#[allow(unused_imports)]
use crate::text::{is_blank, opt_text, texts, trimmed};

verus! {

/// Only the fields the sidebar renders.  Everything else herdr sends is
/// ignored, so an additive protocol change costs nothing.
pub struct RawPane {
    pub terminal_id: Option<String>,
    pub pane_id: Option<String>,
    pub tab_id: Option<String>,
    pub agent_status: Option<String>,
    pub agent: Option<String>,
    pub display_agent: Option<String>,
    pub terminal_title_stripped: Option<String>,
    pub focused: Option<bool>,
    pub cwd: Option<String>,
    pub foreground_cwd: Option<String>,
}

/// The fields of an entry with their characters.
pub struct RawPaneView {
    pub terminal_id: Option<Seq<char>>,
    pub pane_id: Option<Seq<char>>,
    pub tab_id: Option<Seq<char>>,
    pub agent_status: Option<Seq<char>>,
    pub agent: Option<Seq<char>>,
    pub display_agent: Option<Seq<char>>,
    pub terminal_title_stripped: Option<Seq<char>>,
    pub focused: Option<bool>,
    pub cwd: Option<Seq<char>>,
    pub foreground_cwd: Option<Seq<char>>,
}

impl View for RawPane {
    type V = RawPaneView;

    open spec fn view(&self) -> RawPaneView {
        RawPaneView {
            terminal_id: opt_text(self.terminal_id),
            pane_id: opt_text(self.pane_id),
            tab_id: opt_text(self.tab_id),
            agent_status: opt_text(self.agent_status),
            agent: opt_text(self.agent),
            display_agent: opt_text(self.display_agent),
            terminal_title_stripped: opt_text(self.terminal_title_stripped),
            focused: self.focused,
            cwd: opt_text(self.cwd),
            foreground_cwd: opt_text(self.foreground_cwd),
        }
    }
}

/// Whether every field an entry carries has the type herdr gives it.
pub open spec fn well_typed_entry(tree: Tree) -> bool {
    &&& is_record(tree, 10, 10)
    &&& text_field(tree, "terminal_id"@, 0) is Ok
    &&& text_field(tree, "pane_id"@, 1) is Ok
    &&& text_field(tree, "tab_id"@, 2) is Ok
    &&& text_field(tree, "agent_status"@, 3) is Ok
    &&& text_field(tree, "agent"@, 4) is Ok
    &&& text_field(tree, "display_agent"@, 5) is Ok
    &&& text_field(tree, "terminal_title_stripped"@, 6) is Ok
    &&& bool_field(tree, "focused"@, 7) is Ok
    &&& text_field(tree, "cwd"@, 8) is Ok
    &&& text_field(tree, "foreground_cwd"@, 9) is Ok
}

/// The fields of a well-typed entry.
pub open spec fn entry_fields(tree: Tree) -> RawPaneView {
    RawPaneView {
        terminal_id: text_field(tree, "terminal_id"@, 0)->Ok_0,
        pane_id: text_field(tree, "pane_id"@, 1)->Ok_0,
        tab_id: text_field(tree, "tab_id"@, 2)->Ok_0,
        agent_status: text_field(tree, "agent_status"@, 3)->Ok_0,
        agent: text_field(tree, "agent"@, 4)->Ok_0,
        display_agent: text_field(tree, "display_agent"@, 5)->Ok_0,
        terminal_title_stripped: text_field(tree, "terminal_title_stripped"@, 6)->Ok_0,
        focused: bool_field(tree, "focused"@, 7)->Ok_0,
        cwd: text_field(tree, "cwd"@, 8)->Ok_0,
        foreground_cwd: text_field(tree, "foreground_cwd"@, 9)->Ok_0,
    }
}

/// A text that says something, without the white space around it.
pub open spec fn said(text: Option<Seq<char>>) -> Option<Seq<char>> {
    match text {
        Some(t) => if is_blank(t) {
            None
        } else {
            Some(trimmed(t))
        },
        None => None,
    }
}

/// The pane an entry describes under the listing that was asked for: dropped
/// where it has no identity or, being an agent, no status.
pub open spec fn pane_of_entry(raw: RawPaneView, listing: Listing) -> Option<PaneView> {
    let has_agent = listing == Listing::Agents || raw.agent is Some;
    if (has_agent && raw.agent_status is None) || raw.terminal_id is None || raw.pane_id is None {
        None
    } else {
        Some(
            PaneView {
                terminal_id: raw.terminal_id->0,
                pane_id: raw.pane_id->0,
                tab_id: raw.tab_id,
                kind: said(
                    match raw.display_agent {
                        Some(kind) => Some(kind),
                        None => raw.agent,
                    },
                ),
                title: said(raw.terminal_title_stripped),
                status: if has_agent {
                    Some(named_status(raw.agent_status->0))
                } else {
                    None
                },
                focused: raw.focused == Some(true),
                cwd: raw.cwd,
                foreground_cwd: raw.foreground_cwd,
            },
        )
    }
}

/// The view of an optional pane.
pub open spec fn opt_pane(p: Option<Pane>) -> Option<PaneView> {
    match p {
        Some(pane) => Some(pane@),
        None => None,
    }
}

fn said_text(text: Option<String>) -> (r: Option<String>)
    ensures
        opt_text(r) == said(opt_text(text)),
{
    match text {
        Some(t) => if blank(&t) {
            None
        } else {
            Some(trim(&t))
        },
        None => None,
    }
}

impl RawPane {
    /// Read one entry.
    pub fn decode(entry: &Json) -> (r: Result<RawPane, Malformed>)
        ensures
            r is Ok <==> well_typed_entry(entry@),
            r matches Ok(raw) ==> raw@ == entry_fields(entry@),
    {
        if !entry.is_record(10, 10) {
            return Err(Malformed);
        }
        let terminal_id = match entry.opt_text("terminal_id", 0) { Ok(v) => v, Err(e) => return Err(e) };
        let pane_id = match entry.opt_text("pane_id", 1) { Ok(v) => v, Err(e) => return Err(e) };
        let tab_id = match entry.opt_text("tab_id", 2) { Ok(v) => v, Err(e) => return Err(e) };
        let agent_status = match entry.opt_text("agent_status", 3) { Ok(v) => v, Err(e) => return Err(e) };
        let agent = match entry.opt_text("agent", 4) { Ok(v) => v, Err(e) => return Err(e) };
        let display_agent = match entry.opt_text("display_agent", 5) { Ok(v) => v, Err(e) => return Err(e) };
        let terminal_title_stripped = match entry.opt_text("terminal_title_stripped", 6) {
            Ok(v) => v,
            Err(e) => return Err(e),
        };
        let focused = match entry.opt_bool("focused", 7) { Ok(v) => v, Err(e) => return Err(e) };
        let cwd = match entry.opt_text("cwd", 8) { Ok(v) => v, Err(e) => return Err(e) };
        let foreground_cwd = match entry.opt_text("foreground_cwd", 9) { Ok(v) => v, Err(e) => return Err(e) };
        Ok(
            RawPane {
                terminal_id,
                pane_id,
                tab_id,
                agent_status,
                agent,
                display_agent,
                terminal_title_stripped,
                focused,
                cwd,
                foreground_cwd,
            },
        )
    }

    /// The pane this entry describes.
    pub fn into_agent(self, listing: Listing) -> (r: Option<Agent>)
        ensures
            opt_pane(r) == pane_of_entry(self@, listing),
    {
        // Everything `agent list` returns is an agent, whatever it says about
        // the agent's kind; in a pane listing the `agent` key is what says so.
        let has_agent = listing == Listing::Agents || self.agent.is_some();
        let status = if has_agent {
            match &self.agent_status {
                Some(raw) => Some(PaneStatus::parse(raw)),
                None => return None,
            }
        } else {
            None
        };
        let terminal_id = match self.terminal_id { Some(id) => id, None => return None };
        let pane_id = match self.pane_id { Some(id) => id, None => return None };
        let kind = match self.display_agent { Some(kind) => Some(kind), None => self.agent };
        let focused = match self.focused { Some(f) => f, None => false };
        Some(
            Pane {
                terminal_id,
                pane_id,
                tab_id: self.tab_id,
                kind: said_text(kind),
                title: said_text(self.terminal_title_stripped),
                status,
                focused,
                cwd: self.cwd,
                foreground_cwd: self.foreground_cwd,
            },
        )
    }
}

/// The entries a listing holds under one key: none where the key is absent,
/// and malformed where it is no array of well-typed entries.
pub open spec fn entries_at(listed: Tree, key: Seq<char>, place: nat) -> Option<Seq<RawPaneView>> {
    match field(listed, key, place) {
        None => Some(Seq::empty()),
        Some(Tree::Array(items)) => if forall|i: int|
            0 <= i < items.len() ==> well_typed_entry(#[trigger] items[i]) {
            Some(items.map_values(|t: Tree| entry_fields(t)))
        } else {
            None
        },
        Some(_) => None,
    }
}

/// The entries of a reply under the listing that was asked for.  A reply that
/// is not of the shape herdr prints has none.
pub open spec fn reply_entries(reply: Option<Tree>, listing: Listing) -> Seq<RawPaneView> {
    match listed_in(reply) {
        Some(listed) => match (entries_at(listed, "agents"@, 0), entries_at(listed, "panes"@, 1)) {
            (Some(agents), Some(panes)) => match listing {
                Listing::Agents => agents,
                Listing::Panes => panes,
            },
            _ => Seq::empty(),
        },
        None => Seq::empty(),
    }
}

/// What a reply that is of the shape herdr prints has for a result.
pub open spec fn listed_in(reply: Option<Tree>) -> Option<Tree> {
    match reply {
        Some(envelope) => if is_record(envelope, 1, 1) {
            match field(envelope, "result"@, 0) {
                Some(listed) => if is_record(listed, 0, 2) {
                    Some(listed)
                } else {
                    None
                },
                None => None,
            }
        } else {
            None
        },
        None => None,
    }
}

/// The panes of a list of entries: those that describe one, in their order.
pub open spec fn panes_of_entries(raw: Seq<RawPaneView>, listing: Listing) -> Seq<PaneView>
    decreases raw.len(),
{
    if raw.len() == 0 {
        Seq::empty()
    } else {
        let front = panes_of_entries(raw.drop_last(), listing);
        match pane_of_entry(raw.last(), listing) {
            Some(pane) => front.push(pane),
            None => front,
        }
    }
}

/// The panes one reply lists.
pub open spec fn listed_panes(reply: Option<Tree>, listing: Listing) -> Seq<PaneView> {
    panes_of_entries(reply_entries(reply, listing), listing)
}

/// A pane listing never reports an agent for an entry that names none, and an
/// agent listing reports one for every entry it keeps.
pub proof fn a_status_says_whether_there_is_an_agent(raw: RawPaneView, listing: Listing)
    requires
        pane_of_entry(raw, listing) is Some,
    ensures
        pane_of_entry(raw, listing)->0.status is Some <==> (listing == Listing::Agents || raw.agent is Some),
{
}

/// The views of a list of entries.
pub open spec fn raw_views(s: Seq<RawPane>) -> Seq<RawPaneView> {
    s.map_values(|p: RawPane| p@)
}

fn decode_entries(listed: &Json, key: &str, place: usize) -> (r: Option<Vec<RawPane>>)
    ensures
        r is Some <==> entries_at(listed@, key@, place as nat) is Some,
        r matches Some(raw) ==> raw_views(raw@) == entries_at(listed@, key@, place as nat)->0,
{
    match listed.field(key, place) {
        None => {
            let out: Vec<RawPane> = Vec::new();
            assert(raw_views(out@) == Seq::<RawPaneView>::empty());
            Some(out)
        },
        Some(Json::Array(items)) => {
            let ghost trees = field(listed@, key@, place as nat)->0->Array_0;
            let mut out: Vec<RawPane> = Vec::new();
            let mut i: usize = 0;
            while i < items.len()
                invariant
                    i <= items@.len(),
                    field(listed@, key@, place as nat) == Some(Tree::Array(trees)),
                    trees.len() == items@.len(),
                    forall|k: int| 0 <= k < items@.len() ==> #[trigger] trees[k] == items@[k]@,
                    forall|k: int| 0 <= k < i ==> well_typed_entry(#[trigger] trees[k]),
                    out@.len() == i,
                    forall|k: int| 0 <= k < i ==> (#[trigger] out@[k])@ == entry_fields(trees[k]),
                decreases items@.len() - i,
            {
                assert(trees[i as int] == items@[i as int]@);
                match RawPane::decode(&items[i]) {
                    Ok(raw) => out.push(raw),
                    Err(_) => return None,
                }
                i += 1;
            }
            assert(raw_views(out@) =~= trees.map_values(|t: Tree| entry_fields(t)));
            Some(out)
        },
        Some(_) => None,
    }
}

impl Listing {
    /// The entries of a reply that has been read.
    pub fn entries(self, reply: &Option<Json>) -> (r: Vec<RawPane>)
        ensures
            raw_views(r@) == reply_entries(opt_tree(*reply), self),
    {
        let none: Vec<RawPane> = Vec::new();
        assert(raw_views(none@) == Seq::<RawPaneView>::empty());
        let listed = match reply {
            Some(envelope) => if envelope.is_record(1, 1) {
                envelope.field("result", 0)
            } else {
                None
            },
            None => None,
        };
        let listed = match listed {
            Some(listed) => if listed.is_record(0, 2) {
                listed
            } else {
                return none;
            },
            None => return none,
        };
        match (decode_entries(listed, "agents", 0), decode_entries(listed, "panes", 1)) {
            (Some(agents), Some(panes)) => match self {
                Listing::Agents => agents,
                Listing::Panes => panes,
            },
            _ => none,
        }
    }

    /// The panes of a reply that has been read.
    pub fn panes_in(self, reply: &Option<Json>) -> (r: Vec<Agent>)
        ensures
            panes(r@) == listed_panes(opt_tree(*reply), self),
    {
        let raw = self.entries(reply);
        let ghost all = raw_views(raw@);
        let mut out: Vec<Agent> = Vec::new();
        let mut rest = raw;
        let ghost mut done: int = 0;
        proof {
            assert(panes(out@) == Seq::<PaneView>::empty());
            assert(all.take(0) == Seq::<RawPaneView>::empty());
        }
        while rest.len() > 0
            invariant
                0 <= done <= all.len(),
                all == raw_views(raw@),
                rest@ == raw@.skip(done),
                panes(out@) == panes_of_entries(all.take(done), self),
            decreases rest@.len(),
        {
            let entry = rest.remove(0);
            let ghost before = out@;
            proof {
                assert(entry@ == all[done]);
                assert(all.take(done + 1).drop_last() == all.take(done));
                assert(all.take(done + 1).last() == entry@);
                assert(raw@.skip(done).remove(0) == raw@.skip(done + 1));
                done = done + 1;
            }
            match entry.into_agent(self) {
                Some(agent) => {
                    out.push(agent);
                    assert(panes(out@) == panes(before).push(agent@));
                },
                None => {},
            }
        }
        assert(all.take(all.len() as int) == all);
        out
    }

    /// Panes from one reply.  An entry missing an identity — or, where the
    /// entry is an agent, a status — is dropped on its own; its siblings
    /// still parse.  A field that is given twice counts with its last value.
    pub fn parse(self, stdout: &str) -> (r: Vec<Agent>)
        ensures
            panes(r@) == listed_panes(document(stdout@), self),
    {
        self.panes_in(&Json::parse(stdout))
    }
}

/// The code of an error envelope.
pub open spec fn envelope_code(reply: Option<Tree>) -> Option<Seq<char>> {
    match reply {
        Some(envelope) => if is_record(envelope, 1, 1) {
            match field(envelope, "error"@, 0) {
                Some(error) => one_text(error, "code"@),
                None => None,
            }
        } else {
            None
        },
        None => None,
    }
}

/// The text of a record whose only field it is.
pub open spec fn one_text(tree: Tree, name: Seq<char>) -> Option<Seq<char>> {
    if is_record(tree, 1, 1) {
        text_of(field(tree, name, 0))
    } else {
        None
    }
}

/// The text of a record whose only field it is.
pub(crate) fn one_text_in(json: &Json, name: &str) -> (r: Option<String>)
    ensures
        opt_text(r) == one_text(json@, name@),
{
    if json.is_record(1, 1) {
        json.text_in(name, 0)
    } else {
        None
    }
}

/// The `code` of an error envelope that has been read.
pub fn code_in(reply: &Option<Json>) -> (r: Option<String>)
    ensures
        opt_text(r) == envelope_code(opt_tree(*reply)),
{
    match reply {
        Some(envelope) => if envelope.is_record(1, 1) {
            match envelope.field("error", 0) {
                Some(error) => one_text_in(error, "code"),
                None => None,
            }
        } else {
            None
        },
        None => None,
    }
}

/// The `code` from an error envelope on stderr, for deciding whether a
/// failure is the ordinary "no server" case or worth a log line.  A field that
/// is given twice counts with its last value.
pub fn error_code(stderr: &str) -> (r: Option<String>)
    ensures
        opt_text(r) == envelope_code(document(stderr@)),
{
    code_in(&Json::parse(stderr))
}

/// The terminal ids of a full pane listing: each pane must name one that is
/// not blank.
pub open spec fn inventory_ids(reply: Option<Tree>) -> Option<Seq<Seq<char>>> {
    match reply {
        Some(Tree::Object(_)) => if member(reply->0, "error"@) is Some {
            None
        } else {
            match member(reply->0, "result"@) {
                Some(result) => match member(result, "panes"@) {
                    Some(Tree::Array(items)) => if forall|i: int|
                        0 <= i < items.len() ==> names_terminal(#[trigger] items[i]) {
                        Some(items.map_values(|t: Tree| text_of(member(t, "terminal_id"@))->0))
                    } else {
                        None
                    },
                    _ => None,
                },
                None => None,
            }
        },
        _ => None,
    }
}

/// Whether an entry names its terminal.
pub open spec fn names_terminal(entry: Tree) -> bool {
    text_of(member(entry, "terminal_id"@)) matches Some(id) && !is_blank(id)
}

/// What a pane listing that is no inventory is called.
pub const INVALID_INVENTORY: &'static str = "invalid_pane_inventory";

/// The terminal ids of a pane listing that has been read.
pub fn inventory_in(reply: &Option<Json>) -> (r: Result<Vec<String>, PollError>)
    ensures
        r is Ok <==> inventory_ids(opt_tree(*reply)) is Some,
        r matches Ok(ids) ==> texts(ids@) == inventory_ids(opt_tree(*reply))->0,
        r matches Err(e) ==> e@ == PollErrorView::Absent(INVALID_INVENTORY@),
{
    let envelope = match reply {
        Some(envelope) => envelope,
        None => return Err(PollError::Absent(INVALID_INVENTORY)),
    };
    if !matches!(envelope, Json::Object(_)) || envelope.get("error").is_some() {
        return Err(PollError::Absent(INVALID_INVENTORY));
    }
    let result = match envelope.get("result") {
        Some(result) => result,
        None => return Err(PollError::Absent(INVALID_INVENTORY)),
    };
    match result.get("panes") {
        Some(Json::Array(items)) => {
            let ghost trees = member(result@, "panes"@)->0->Array_0;
            let mut out: Vec<String> = Vec::new();
            let mut i: usize = 0;
            while i < items.len()
                invariant
                    i <= items@.len(),
                    reply is Some,
                    reply->0@ is Object,
                    member(reply->0@, "error"@) is None,
                    member(reply->0@, "result"@) == Some(result@),
                    member(result@, "panes"@) == Some(Tree::Array(trees)),
                    trees.len() == items@.len(),
                    forall|k: int| 0 <= k < items@.len() ==> #[trigger] trees[k] == items@[k]@,
                    forall|k: int| 0 <= k < i ==> names_terminal(#[trigger] trees[k]),
                    out@.len() == i,
                    forall|k: int|
                        0 <= k < i ==> (#[trigger] out@[k])@ == text_of(member(trees[k], "terminal_id"@))->0,
                decreases items@.len() - i,
            {
                assert(trees[i as int] == items@[i as int]@);
                match items[i].text_at("terminal_id") {
                    Some(id) => {
                        if blank(&id) {
                            return Err(PollError::Absent(INVALID_INVENTORY));
                        }
                        out.push(id);
                    },
                    None => return Err(PollError::Absent(INVALID_INVENTORY)),
                }
                i += 1;
            }
            assert(texts(out@) =~= trees.map_values(|t: Tree| text_of(member(t, "terminal_id"@))->0));
            Ok(out)
        },
        _ => Err(PollError::Absent(INVALID_INVENTORY)),
    }
}

/// The name of the first session that runs, where every session is well
/// formed.
pub open spec fn running_session(reply: Option<Tree>) -> Option<Seq<char>> {
    match sessions_in(reply) {
        Some(items) => if forall|i: int|
            0 <= i < items.len() ==> well_formed_session(#[trigger] items[i]) {
            first_running(items)
        } else {
            None
        },
        None => None,
    }
}

/// The sessions a session list has.
pub open spec fn sessions_in(reply: Option<Tree>) -> Option<Seq<Tree>> {
    match reply {
        Some(list) => if is_record(list, 0, 1) {
            match field(list, "sessions"@, 0) {
                Some(Tree::Array(items)) => Some(items),
                _ => None,
            }
        } else {
            None
        },
        None => None,
    }
}

/// A session has a name, and says whether it runs by a truth value or not at
/// all.
pub open spec fn well_formed_session(session: Tree) -> bool {
    &&& is_record(session, 1, 2)
    &&& text_of(field(session, "name"@, 0)) is Some
    &&& (field(session, "running"@, 1) matches Some(value) ==> value is Bool)
}

/// The name of the first session that runs.
pub open spec fn first_running(items: Seq<Tree>) -> Option<Seq<char>>
    decreases items.len(),
{
    if items.len() == 0 {
        None
    } else if field(items[0], "running"@, 1) == Some(Tree::Bool(true)) {
        text_of(field(items[0], "name"@, 0))
    } else {
        first_running(items.drop_first())
    }
}

/// The running session's name in a session list that has been read.  `herdr
/// session list --json` is a flat object rather than the `result`-wrapped
/// envelope `agent list` uses.  Of a field that was given twice the document
/// holds the last value.
pub fn running_session_in(reply: &Option<Json>) -> (r: Option<String>)
    ensures
        opt_text(r) == running_session(opt_tree(*reply)),
{
    let list = match reply {
        Some(list) => list,
        None => return None,
    };
    if !list.is_record(0, 1) {
        return None;
    }
    match list.field("sessions", 0) {
        Some(Json::Array(items)) => {
            let ghost trees = field(list@, "sessions"@, 0)->0->Array_0;
            let mut found: Option<String> = None;
            let mut i: usize = 0;
            proof {
                assert(trees.skip(0) == trees);
            }
            while i < items.len()
                invariant
                    i <= items@.len(),
                    sessions_in(opt_tree(*reply)) == Some(trees),
                    trees.len() == items@.len(),
                    forall|k: int| 0 <= k < items@.len() ==> #[trigger] trees[k] == items@[k]@,
                    forall|k: int| 0 <= k < i ==> well_formed_session(#[trigger] trees[k]),
                    found is None ==> first_running(trees) == first_running(trees.skip(i as int)),
                    found is Some ==> first_running(trees) == Some(found->0@),
                decreases items@.len() - i,
            {
                assert(trees[i as int] == items@[i as int]@);
                assert(trees.skip(i as int)[0] == trees[i as int]);
                assert(trees.skip(i as int).drop_first() == trees.skip(i + 1));
                if !items[i].is_record(1, 2) {
                    assert(!well_formed_session(trees[i as int]));
                    return None;
                }
                let name = match items[i].text_in("name", 0) {
                    Some(name) => name,
                    None => {
                        assert(!well_formed_session(trees[i as int]));
                        return None;
                    },
                };
                let running = match items[i].field("running", 1) {
                    Some(Json::Bool(b)) => *b,
                    None => false,
                    Some(_) => {
                        assert(!well_formed_session(trees[i as int]));
                        return None;
                    },
                };
                if running && found.is_none() {
                    found = Some(name);
                }
                i += 1;
            }
            found
        },
        _ => None,
    }
}

} // verus!

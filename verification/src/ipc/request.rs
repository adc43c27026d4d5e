//! What a client asks of a running app: the requests, how they are spelled on
//! the wire, and how a line is read as one.

use vstd::prelude::*;

use crate::json;
use crate::json::{object, text_or_null, Json};
#[allow(unused_imports)]
use crate::json::{
    a_named_member_is_found, document, document_text, in_order, lookup, member_names, member_trees, nesting, opt_ref_tree, read_document,
    reads_back, text_of, Tree,
};
use crate::text::{concat2, same};
#[allow(unused_imports)]
use crate::text::{
    comes_before, first_difference_decides, neighbours_order_a_list, opt_slice, opt_text, strictly_ordered, texts_are_ordered,
};

verus! {

/// Everything a client can ask of a running app.  On the wire each is an
/// object of its fields and the `type` that names it.
#[derive(Debug, PartialEq, Eq)]
#[allow(inconsistent_fields)]
pub enum IpcRequest {
    ListProjects,
    ListSessions,
    SelectWorkspace { path: Option<String> },
    CreateSession { workspace: Option<String> },
    CloseSession { session_id: u64 },
    SendText { session_id: u64, text: String },
    MoveSession { session_id: u64, path: String },
    ReadScreen { session_id: u64, scrollback_lines: usize },
    /// Read the auto-saved Markdown document, independently of whether its
    /// editor tab is open.  `None` and `"current"` are resolved by the app;
    /// `"home"` and absolute worktree paths are explicit targets.
    ReadScratchpad { workspace: Option<String> },
    RefreshProject { root: String },
    AddProject { path: String },
    RemoveProject { root: String },
    RenameProject { root: String, label: Option<String> },
    GitStatus { path: String },
    CreateWorktree { project_root: String, branch: String },
    /// Every pane the multiplexer integration has detected, whether or not a
    /// session is attached to one.
    ListMultiplexerPanes,
    /// Open a session on a detected multiplexer pane, the way clicking its
    /// sidebar row does.  The pane id is deliberately not the target: it is
    /// positional and changes when a pane moves.  `no_focus` opens the
    /// session behind the scenes.
    AttachMultiplexerPane { multiplexer: Option<String>, side: String, terminal_id: String, no_focus: bool },
    /// Open a new pane in the multiplexer and a session on it.  An omitted side
    /// is the one the active session belongs to, and an omitted workspace the
    /// focused one.
    CreateMultiplexerPane { multiplexer: Option<String>, side: Option<String>, workspace: Option<String>, no_focus: bool },
    /// Run a named key-binding action as if its key had been pressed.
    RunAction { action: String },
}

/// A request with the characters of its texts.
#[allow(inconsistent_fields)]
pub enum Asked {
    ListProjects,
    ListSessions,
    SelectWorkspace { path: Option<Seq<char>> },
    CreateSession { workspace: Option<Seq<char>> },
    CloseSession { session_id: u64 },
    SendText { session_id: u64, text: Seq<char> },
    MoveSession { session_id: u64, path: Seq<char> },
    ReadScreen { session_id: u64, scrollback_lines: usize },
    ReadScratchpad { workspace: Option<Seq<char>> },
    RefreshProject { root: Seq<char> },
    AddProject { path: Seq<char> },
    RemoveProject { root: Seq<char> },
    RenameProject { root: Seq<char>, label: Option<Seq<char>> },
    GitStatus { path: Seq<char> },
    CreateWorktree { project_root: Seq<char>, branch: Seq<char> },
    ListMultiplexerPanes,
    AttachMultiplexerPane { multiplexer: Option<Seq<char>>, side: Seq<char>, terminal_id: Seq<char>, no_focus: bool },
    CreateMultiplexerPane { multiplexer: Option<Seq<char>>, side: Option<Seq<char>>, workspace: Option<Seq<char>>, no_focus: bool },
    RunAction { action: Seq<char> },
}

impl View for IpcRequest {
    type V = Asked;

    open spec fn view(&self) -> Asked {
        match self {
            IpcRequest::ListProjects => Asked::ListProjects,
            IpcRequest::ListSessions => Asked::ListSessions,
            IpcRequest::SelectWorkspace { path } => Asked::SelectWorkspace { path: opt_text(*path) },
            IpcRequest::CreateSession { workspace } => Asked::CreateSession { workspace: opt_text(*workspace) },
            IpcRequest::CloseSession { session_id } => Asked::CloseSession { session_id: *session_id },
            IpcRequest::SendText { session_id, text } => Asked::SendText { session_id: *session_id, text: text@ },
            IpcRequest::MoveSession { session_id, path } => Asked::MoveSession { session_id: *session_id, path: path@ },
            IpcRequest::ReadScreen { session_id, scrollback_lines } => Asked::ReadScreen { session_id: *session_id, scrollback_lines: *scrollback_lines },
            IpcRequest::ReadScratchpad { workspace } => Asked::ReadScratchpad { workspace: opt_text(*workspace) },
            IpcRequest::RefreshProject { root } => Asked::RefreshProject { root: root@ },
            IpcRequest::AddProject { path } => Asked::AddProject { path: path@ },
            IpcRequest::RemoveProject { root } => Asked::RemoveProject { root: root@ },
            IpcRequest::RenameProject { root, label } => Asked::RenameProject { root: root@, label: opt_text(*label) },
            IpcRequest::GitStatus { path } => Asked::GitStatus { path: path@ },
            IpcRequest::CreateWorktree { project_root, branch } => Asked::CreateWorktree { project_root: project_root@, branch: branch@ },
            IpcRequest::ListMultiplexerPanes => Asked::ListMultiplexerPanes,
            IpcRequest::AttachMultiplexerPane { multiplexer, side, terminal_id, no_focus } => Asked::AttachMultiplexerPane { multiplexer: opt_text(*multiplexer), side: side@, terminal_id: terminal_id@, no_focus: *no_focus },
            IpcRequest::CreateMultiplexerPane { multiplexer, side, workspace, no_focus } => Asked::CreateMultiplexerPane { multiplexer: opt_text(*multiplexer), side: opt_text(*side), workspace: opt_text(*workspace), no_focus: *no_focus },
            IpcRequest::RunAction { action } => Asked::RunAction { action: action@ },
        }
    }
}

/// What a request is called in the code.
pub open spec fn request_name(request: Asked) -> Seq<char> {
    match request {
        Asked::ListProjects => "ListProjects"@,
        Asked::ListSessions => "ListSessions"@,
        Asked::SelectWorkspace { .. } => "SelectWorkspace"@,
        Asked::CreateSession { .. } => "CreateSession"@,
        Asked::CloseSession { .. } => "CloseSession"@,
        Asked::SendText { .. } => "SendText"@,
        Asked::MoveSession { .. } => "MoveSession"@,
        Asked::ReadScreen { .. } => "ReadScreen"@,
        Asked::ReadScratchpad { .. } => "ReadScratchpad"@,
        Asked::RefreshProject { .. } => "RefreshProject"@,
        Asked::AddProject { .. } => "AddProject"@,
        Asked::RemoveProject { .. } => "RemoveProject"@,
        Asked::RenameProject { .. } => "RenameProject"@,
        Asked::GitStatus { .. } => "GitStatus"@,
        Asked::CreateWorktree { .. } => "CreateWorktree"@,
        Asked::ListMultiplexerPanes => "ListMultiplexerPanes"@,
        Asked::AttachMultiplexerPane { .. } => "AttachMultiplexerPane"@,
        Asked::CreateMultiplexerPane { .. } => "CreateMultiplexerPane"@,
        Asked::RunAction { .. } => "RunAction"@,
    }
}

/// A field of a request: the member of that name, or, in a request spelled as
/// a list, what stands at that place after the name.
pub open spec fn field(tree: Tree, name: Seq<char>, place: nat) -> Option<Tree> {
    match tree {
        Tree::Object(members) => lookup(members, name),
        Tree::Array(items) => if place + 1 < items.len() {
            Some(items[place as int + 1])
        } else {
            None
        },
        _ => None,
    }
}

/// Whether a request spelled as a list has no more than that many fields.
pub open spec fn fits(tree: Tree, fields: nat) -> bool {
    tree matches Tree::Array(items) ==> items.len() <= fields + 1
}

/// The name of the request a document spells.
pub open spec fn tag_in(tree: Tree) -> Option<Seq<char>> {
    match tree {
        Tree::Object(members) => text_of(lookup(members, "type"@)),
        Tree::Array(items) => if items.len() > 0 {
            text_of(Some(items[0]))
        } else {
            None
        },
        _ => None,
    }
}

/// A text that may be left out, or null.
pub open spec fn may_text(field: Option<Tree>) -> Option<Option<Seq<char>>> {
    match field {
        None => Some(None),
        Some(Tree::Null) => Some(None),
        Some(Tree::Text(s)) => Some(Some(s)),
        Some(_) => None,
    }
}

/// A whole number that must be there.
pub open spec fn need_count(field: Option<Tree>) -> Option<u64> {
    match field {
        Some(Tree::Unsigned(n)) => Some(n),
        _ => None,
    }
}

/// A size that is nothing where it is left out.
pub open spec fn may_size(field: Option<Tree>) -> Option<usize> {
    match field {
        None => Some(0),
        Some(Tree::Unsigned(n)) => if n <= usize::MAX {
            Some(n as usize)
        } else {
            None
        },
        Some(_) => None,
    }
}

/// A flag that is off where it is left out.
pub open spec fn may_flag(field: Option<Tree>) -> Option<bool> {
    match field {
        None => Some(false),
        Some(Tree::Bool(b)) => Some(b),
        Some(_) => None,
    }
}

/// The request a document spells, and `None` where it spells none.
pub open spec fn request_in(tree: Tree) -> Option<Asked> {
    match tag_in(tree) {
        None => None,
        Some(tag) => named_request(tag, tree),
    }
}

/// The `select_workspace` request a document spells.
pub open spec fn select_workspace_in(tree: Tree) -> Option<Asked> {
    match may_text(field(tree, "path"@, 0)) {
        Some(path) if fits(tree, 1) => Some(
            Asked::SelectWorkspace { path },
        ),
        _ => None,
    }
}

/// The `create_session` request a document spells.
pub open spec fn create_session_in(tree: Tree) -> Option<Asked> {
    match may_text(field(tree, "workspace"@, 0)) {
        Some(workspace) if fits(tree, 1) => Some(
            Asked::CreateSession { workspace },
        ),
        _ => None,
    }
}

/// The `close_session` request a document spells.
pub open spec fn close_session_in(tree: Tree) -> Option<Asked> {
    match need_count(field(tree, "session_id"@, 0)) {
        Some(session_id) if fits(tree, 1) => Some(
            Asked::CloseSession { session_id },
        ),
        _ => None,
    }
}

/// The `send_text` request a document spells.
pub open spec fn send_text_in(tree: Tree) -> Option<Asked> {
    match (
        need_count(field(tree, "session_id"@, 0)),
        text_of(field(tree, "text"@, 1)),
    ) {
        (Some(session_id), Some(text)) if fits(tree, 2) => Some(
            Asked::SendText { session_id, text },
        ),
        _ => None,
    }
}

/// The `move_session` request a document spells.
pub open spec fn move_session_in(tree: Tree) -> Option<Asked> {
    match (
        need_count(field(tree, "session_id"@, 0)),
        text_of(field(tree, "path"@, 1)),
    ) {
        (Some(session_id), Some(path)) if fits(tree, 2) => Some(
            Asked::MoveSession { session_id, path },
        ),
        _ => None,
    }
}

/// The `read_screen` request a document spells.
pub open spec fn read_screen_in(tree: Tree) -> Option<Asked> {
    match (
        need_count(field(tree, "session_id"@, 0)),
        may_size(field(tree, "scrollback_lines"@, 1)),
    ) {
        (Some(session_id), Some(scrollback_lines)) if fits(tree, 2) => Some(
            Asked::ReadScreen { session_id, scrollback_lines },
        ),
        _ => None,
    }
}

/// The `read_scratchpad` request a document spells.
pub open spec fn read_scratchpad_in(tree: Tree) -> Option<Asked> {
    match may_text(field(tree, "workspace"@, 0)) {
        Some(workspace) if fits(tree, 1) => Some(
            Asked::ReadScratchpad { workspace },
        ),
        _ => None,
    }
}

/// The `refresh_project` request a document spells.
pub open spec fn refresh_project_in(tree: Tree) -> Option<Asked> {
    match text_of(field(tree, "root"@, 0)) {
        Some(root) if fits(tree, 1) => Some(
            Asked::RefreshProject { root },
        ),
        _ => None,
    }
}

/// The `add_project` request a document spells.
pub open spec fn add_project_in(tree: Tree) -> Option<Asked> {
    match text_of(field(tree, "path"@, 0)) {
        Some(path) if fits(tree, 1) => Some(
            Asked::AddProject { path },
        ),
        _ => None,
    }
}

/// The `remove_project` request a document spells.
pub open spec fn remove_project_in(tree: Tree) -> Option<Asked> {
    match text_of(field(tree, "root"@, 0)) {
        Some(root) if fits(tree, 1) => Some(
            Asked::RemoveProject { root },
        ),
        _ => None,
    }
}

/// The `rename_project` request a document spells.
pub open spec fn rename_project_in(tree: Tree) -> Option<Asked> {
    match (
        text_of(field(tree, "root"@, 0)),
        may_text(field(tree, "label"@, 1)),
    ) {
        (Some(root), Some(label)) if fits(tree, 2) => Some(
            Asked::RenameProject { root, label },
        ),
        _ => None,
    }
}

/// The `git_status` request a document spells.
pub open spec fn git_status_in(tree: Tree) -> Option<Asked> {
    match text_of(field(tree, "path"@, 0)) {
        Some(path) if fits(tree, 1) => Some(
            Asked::GitStatus { path },
        ),
        _ => None,
    }
}

/// The `create_worktree` request a document spells.
pub open spec fn create_worktree_in(tree: Tree) -> Option<Asked> {
    match (
        text_of(field(tree, "project_root"@, 0)),
        text_of(field(tree, "branch"@, 1)),
    ) {
        (Some(project_root), Some(branch)) if fits(tree, 2) => Some(
            Asked::CreateWorktree { project_root, branch },
        ),
        _ => None,
    }
}

/// The `attach_multiplexer_pane` request a document spells.
pub open spec fn attach_multiplexer_pane_in(tree: Tree) -> Option<Asked> {
    match (
        may_text(field(tree, "multiplexer"@, 0)),
        text_of(field(tree, "side"@, 1)),
        text_of(field(tree, "terminal_id"@, 2)),
        may_flag(field(tree, "no_focus"@, 3)),
    ) {
        (Some(multiplexer), Some(side), Some(terminal_id), Some(no_focus)) if fits(tree, 4) => Some(
            Asked::AttachMultiplexerPane { multiplexer, side, terminal_id, no_focus },
        ),
        _ => None,
    }
}

/// The `create_multiplexer_pane` request a document spells.
pub open spec fn create_multiplexer_pane_in(tree: Tree) -> Option<Asked> {
    match (
        may_text(field(tree, "multiplexer"@, 0)),
        may_text(field(tree, "side"@, 1)),
        may_text(field(tree, "workspace"@, 2)),
        may_flag(field(tree, "no_focus"@, 3)),
    ) {
        (Some(multiplexer), Some(side), Some(workspace), Some(no_focus)) if fits(tree, 4) => Some(
            Asked::CreateMultiplexerPane { multiplexer, side, workspace, no_focus },
        ),
        _ => None,
    }
}

/// The `run_action` request a document spells.
pub open spec fn run_action_in(tree: Tree) -> Option<Asked> {
    match text_of(field(tree, "action"@, 0)) {
        Some(action) if fits(tree, 1) => Some(
            Asked::RunAction { action },
        ),
        _ => None,
    }
}

/// A request without fields, which a document spells by its name alone.
pub open spec fn bare_in(tree: Tree, request: Asked) -> Option<Asked> {
    if fits(tree, 0) {
        Some(request)
    } else {
        None
    }
}

/// The request of that name that a document spells.
pub open spec fn named_request(tag: Seq<char>, tree: Tree) -> Option<Asked> {
    if tag == "add_project"@ {
        add_project_in(tree)
    } else if tag == "attach_multiplexer_pane"@ {
        attach_multiplexer_pane_in(tree)
    } else if tag == "close_session"@ {
        close_session_in(tree)
    } else if tag == "create_multiplexer_pane"@ {
        create_multiplexer_pane_in(tree)
    } else if tag == "create_session"@ {
        create_session_in(tree)
    } else if tag == "create_worktree"@ {
        create_worktree_in(tree)
    } else if tag == "git_status"@ {
        git_status_in(tree)
    } else if tag == "list_multiplexer_panes"@ {
        bare_in(tree, Asked::ListMultiplexerPanes)
    } else if tag == "list_projects"@ {
        bare_in(tree, Asked::ListProjects)
    } else if tag == "list_sessions"@ {
        bare_in(tree, Asked::ListSessions)
    } else if tag == "move_session"@ {
        move_session_in(tree)
    } else if tag == "read_scratchpad"@ {
        read_scratchpad_in(tree)
    } else if tag == "read_screen"@ {
        read_screen_in(tree)
    } else if tag == "refresh_project"@ {
        refresh_project_in(tree)
    } else if tag == "remove_project"@ {
        remove_project_in(tree)
    } else if tag == "rename_project"@ {
        rename_project_in(tree)
    } else if tag == "run_action"@ {
        run_action_in(tree)
    } else if tag == "select_workspace"@ {
        select_workspace_in(tree)
    } else if tag == "send_text"@ {
        send_text_in(tree)
    } else {
        None
    }
}

/// A text, or null where there is none.
pub open spec fn text_tree(t: Option<Seq<char>>) -> Tree {
    match t {
        Some(t) => Tree::Text(t),
        None => Tree::Null,
    }
}

/// The members that spell a request, in order.
pub open spec fn request_members(request: Asked) -> Seq<(Seq<char>, Tree)> {
    match request {
        Asked::ListProjects => seq![("type"@, Tree::Text("list_projects"@))],
        Asked::ListSessions => seq![("type"@, Tree::Text("list_sessions"@))],
        Asked::SelectWorkspace { path } => seq![
            ("path"@, text_tree(path)),
            ("type"@, Tree::Text("select_workspace"@)),
        ],
        Asked::CreateSession { workspace } => seq![
            ("type"@, Tree::Text("create_session"@)),
            ("workspace"@, text_tree(workspace)),
        ],
        Asked::CloseSession { session_id } => seq![
            ("session_id"@, Tree::Unsigned(session_id)),
            ("type"@, Tree::Text("close_session"@)),
        ],
        Asked::SendText { session_id, text } => seq![
            ("session_id"@, Tree::Unsigned(session_id)),
            ("text"@, Tree::Text(text)),
            ("type"@, Tree::Text("send_text"@)),
        ],
        Asked::MoveSession { session_id, path } => seq![
            ("path"@, Tree::Text(path)),
            ("session_id"@, Tree::Unsigned(session_id)),
            ("type"@, Tree::Text("move_session"@)),
        ],
        Asked::ReadScreen { session_id, scrollback_lines } => seq![
            ("scrollback_lines"@, Tree::Unsigned(scrollback_lines as u64)),
            ("session_id"@, Tree::Unsigned(session_id)),
            ("type"@, Tree::Text("read_screen"@)),
        ],
        Asked::ReadScratchpad { workspace } => seq![
            ("type"@, Tree::Text("read_scratchpad"@)),
            ("workspace"@, text_tree(workspace)),
        ],
        Asked::RefreshProject { root } => seq![
            ("root"@, Tree::Text(root)),
            ("type"@, Tree::Text("refresh_project"@)),
        ],
        Asked::AddProject { path } => seq![
            ("path"@, Tree::Text(path)),
            ("type"@, Tree::Text("add_project"@)),
        ],
        Asked::RemoveProject { root } => seq![
            ("root"@, Tree::Text(root)),
            ("type"@, Tree::Text("remove_project"@)),
        ],
        Asked::RenameProject { root, label } => seq![
            ("label"@, text_tree(label)),
            ("root"@, Tree::Text(root)),
            ("type"@, Tree::Text("rename_project"@)),
        ],
        Asked::GitStatus { path } => seq![
            ("path"@, Tree::Text(path)),
            ("type"@, Tree::Text("git_status"@)),
        ],
        Asked::CreateWorktree { project_root, branch } => seq![
            ("branch"@, Tree::Text(branch)),
            ("project_root"@, Tree::Text(project_root)),
            ("type"@, Tree::Text("create_worktree"@)),
        ],
        Asked::ListMultiplexerPanes => seq![("type"@, Tree::Text("list_multiplexer_panes"@))],
        Asked::AttachMultiplexerPane { multiplexer, side, terminal_id, no_focus } => seq![
            ("multiplexer"@, text_tree(multiplexer)),
            ("no_focus"@, Tree::Bool(no_focus)),
            ("side"@, Tree::Text(side)),
            ("terminal_id"@, Tree::Text(terminal_id)),
            ("type"@, Tree::Text("attach_multiplexer_pane"@)),
        ],
        Asked::CreateMultiplexerPane { multiplexer, side, workspace, no_focus } => seq![
            ("multiplexer"@, text_tree(multiplexer)),
            ("no_focus"@, Tree::Bool(no_focus)),
            ("side"@, text_tree(side)),
            ("type"@, Tree::Text("create_multiplexer_pane"@)),
            ("workspace"@, text_tree(workspace)),
        ],
        Asked::RunAction { action } => seq![
            ("action"@, Tree::Text(action)),
            ("type"@, Tree::Text("run_action"@)),
        ],
    }
}

fn find_field<'a>(json: &'a Json, name: &str, place: usize) -> (r: Option<&'a Json>)
    requires
        place < usize::MAX,
    ensures
        opt_ref_tree(r) == field(json@, name@, place as nat),
{
    match json {
        Json::Object(_) => json.get(name),
        Json::Array(items) => {
            assert(json@->Array_0.len() == items@.len());
            if place + 1 < items.len() {
                assert(json@->Array_0[place as int + 1] == items@[place as int + 1]@);
                Some(&items[place + 1])
            } else {
                None
            }
        },
        _ => None,
    }
}

fn list_fits(json: &Json, fields: usize) -> (r: bool)
    requires
        fields < 100,
    ensures
        r == fits(json@, fields as nat),
{
    match json {
        Json::Array(items) => {
            assert(json@->Array_0.len() == items@.len());
            items.len() <= fields + 1
        },
        _ => true,
    }
}

fn find_tag(json: &Json) -> (r: Option<String>)
    ensures
        opt_text(r) == tag_in(json@),
{
    match json {
        Json::Object(_) => json.text_at("type"),
        Json::Array(items) => {
            assert(json@->Array_0.len() == items@.len());
            if items.len() > 0 {
                assert(json@->Array_0[0] == items@[0]@);
                match items[0].as_text() {
                    Some(tag) => Some(tag.clone()),
                    None => None,
                }
            } else {
                None
            }
        },
        _ => None,
    }
}

fn read_text(field: Option<&Json>) -> (r: Option<String>)
    ensures
        opt_text(r) == text_of(opt_ref_tree(field)),
{
    match field {
        Some(Json::Text(s)) => Some(s.clone()),
        _ => None,
    }
}

fn read_may_text(field: Option<&Json>) -> (r: Option<Option<String>>)
    ensures
        (match r {
            Some(t) => Some(opt_text(t)),
            None => None,
        }) == may_text(opt_ref_tree(field)),
{
    match field {
        None => Some(None),
        Some(Json::Null) => Some(None),
        Some(Json::Text(s)) => Some(Some(s.clone())),
        Some(_) => None,
    }
}

fn read_count(field: Option<&Json>) -> (r: Option<u64>)
    ensures
        r == need_count(opt_ref_tree(field)),
{
    match field {
        Some(Json::Unsigned(n)) => Some(*n),
        _ => None,
    }
}

fn read_size(field: Option<&Json>) -> (r: Option<usize>)
    ensures
        r == may_size(opt_ref_tree(field)),
{
    match field {
        None => Some(0),
        Some(Json::Unsigned(n)) => if *n <= usize::MAX as u64 {
            Some(*n as usize)
        } else {
            None
        },
        Some(_) => None,
    }
}

fn read_flag(field: Option<&Json>) -> (r: Option<bool>)
    ensures
        r == may_flag(opt_ref_tree(field)),
{
    match field {
        None => Some(false),
        Some(Json::Bool(b)) => Some(*b),
        Some(_) => None,
    }
}

fn read_select_workspace(json: &Json) -> (r: Option<IpcRequest>)
    ensures
        asked(r) == select_workspace_in(json@),
{
    let path = match read_may_text(find_field(json, "path", 0)) {
        Some(v) => v,
        None => {
            return None;
        },
    };
    if !list_fits(json, 1) {
        return None;
    }
    Some(IpcRequest::SelectWorkspace { path })
}

fn read_create_session(json: &Json) -> (r: Option<IpcRequest>)
    ensures
        asked(r) == create_session_in(json@),
{
    let workspace = match read_may_text(find_field(json, "workspace", 0)) {
        Some(v) => v,
        None => {
            return None;
        },
    };
    if !list_fits(json, 1) {
        return None;
    }
    Some(IpcRequest::CreateSession { workspace })
}

fn read_close_session(json: &Json) -> (r: Option<IpcRequest>)
    ensures
        asked(r) == close_session_in(json@),
{
    let session_id = match read_count(find_field(json, "session_id", 0)) {
        Some(v) => v,
        None => {
            return None;
        },
    };
    if !list_fits(json, 1) {
        return None;
    }
    Some(IpcRequest::CloseSession { session_id })
}

fn read_send_text(json: &Json) -> (r: Option<IpcRequest>)
    ensures
        asked(r) == send_text_in(json@),
{
    let session_id = match read_count(find_field(json, "session_id", 0)) {
        Some(v) => v,
        None => {
            return None;
        },
    };
    let text = match read_text(find_field(json, "text", 1)) {
        Some(v) => v,
        None => {
            return None;
        },
    };
    if !list_fits(json, 2) {
        return None;
    }
    Some(IpcRequest::SendText { session_id, text })
}

fn read_move_session(json: &Json) -> (r: Option<IpcRequest>)
    ensures
        asked(r) == move_session_in(json@),
{
    let session_id = match read_count(find_field(json, "session_id", 0)) {
        Some(v) => v,
        None => {
            return None;
        },
    };
    let path = match read_text(find_field(json, "path", 1)) {
        Some(v) => v,
        None => {
            return None;
        },
    };
    if !list_fits(json, 2) {
        return None;
    }
    Some(IpcRequest::MoveSession { session_id, path })
}

fn read_read_screen(json: &Json) -> (r: Option<IpcRequest>)
    ensures
        asked(r) == read_screen_in(json@),
{
    let session_id = match read_count(find_field(json, "session_id", 0)) {
        Some(v) => v,
        None => {
            return None;
        },
    };
    let scrollback_lines = match read_size(find_field(json, "scrollback_lines", 1)) {
        Some(v) => v,
        None => {
            return None;
        },
    };
    if !list_fits(json, 2) {
        return None;
    }
    Some(IpcRequest::ReadScreen { session_id, scrollback_lines })
}

fn read_read_scratchpad(json: &Json) -> (r: Option<IpcRequest>)
    ensures
        asked(r) == read_scratchpad_in(json@),
{
    let workspace = match read_may_text(find_field(json, "workspace", 0)) {
        Some(v) => v,
        None => {
            return None;
        },
    };
    if !list_fits(json, 1) {
        return None;
    }
    Some(IpcRequest::ReadScratchpad { workspace })
}

fn read_refresh_project(json: &Json) -> (r: Option<IpcRequest>)
    ensures
        asked(r) == refresh_project_in(json@),
{
    let root = match read_text(find_field(json, "root", 0)) {
        Some(v) => v,
        None => {
            return None;
        },
    };
    if !list_fits(json, 1) {
        return None;
    }
    Some(IpcRequest::RefreshProject { root })
}

fn read_add_project(json: &Json) -> (r: Option<IpcRequest>)
    ensures
        asked(r) == add_project_in(json@),
{
    let path = match read_text(find_field(json, "path", 0)) {
        Some(v) => v,
        None => {
            return None;
        },
    };
    if !list_fits(json, 1) {
        return None;
    }
    Some(IpcRequest::AddProject { path })
}

fn read_remove_project(json: &Json) -> (r: Option<IpcRequest>)
    ensures
        asked(r) == remove_project_in(json@),
{
    let root = match read_text(find_field(json, "root", 0)) {
        Some(v) => v,
        None => {
            return None;
        },
    };
    if !list_fits(json, 1) {
        return None;
    }
    Some(IpcRequest::RemoveProject { root })
}

fn read_rename_project(json: &Json) -> (r: Option<IpcRequest>)
    ensures
        asked(r) == rename_project_in(json@),
{
    let root = match read_text(find_field(json, "root", 0)) {
        Some(v) => v,
        None => {
            return None;
        },
    };
    let label = match read_may_text(find_field(json, "label", 1)) {
        Some(v) => v,
        None => {
            return None;
        },
    };
    if !list_fits(json, 2) {
        return None;
    }
    Some(IpcRequest::RenameProject { root, label })
}

fn read_git_status(json: &Json) -> (r: Option<IpcRequest>)
    ensures
        asked(r) == git_status_in(json@),
{
    let path = match read_text(find_field(json, "path", 0)) {
        Some(v) => v,
        None => {
            return None;
        },
    };
    if !list_fits(json, 1) {
        return None;
    }
    Some(IpcRequest::GitStatus { path })
}

fn read_create_worktree(json: &Json) -> (r: Option<IpcRequest>)
    ensures
        asked(r) == create_worktree_in(json@),
{
    let project_root = match read_text(find_field(json, "project_root", 0)) {
        Some(v) => v,
        None => {
            return None;
        },
    };
    let branch = match read_text(find_field(json, "branch", 1)) {
        Some(v) => v,
        None => {
            return None;
        },
    };
    if !list_fits(json, 2) {
        return None;
    }
    Some(IpcRequest::CreateWorktree { project_root, branch })
}

fn read_attach_multiplexer_pane(json: &Json) -> (r: Option<IpcRequest>)
    ensures
        asked(r) == attach_multiplexer_pane_in(json@),
{
    let multiplexer = match read_may_text(find_field(json, "multiplexer", 0)) {
        Some(v) => v,
        None => {
            return None;
        },
    };
    let side = match read_text(find_field(json, "side", 1)) {
        Some(v) => v,
        None => {
            return None;
        },
    };
    let terminal_id = match read_text(find_field(json, "terminal_id", 2)) {
        Some(v) => v,
        None => {
            return None;
        },
    };
    let no_focus = match read_flag(find_field(json, "no_focus", 3)) {
        Some(v) => v,
        None => {
            return None;
        },
    };
    if !list_fits(json, 4) {
        return None;
    }
    Some(IpcRequest::AttachMultiplexerPane { multiplexer, side, terminal_id, no_focus })
}

fn read_create_multiplexer_pane(json: &Json) -> (r: Option<IpcRequest>)
    ensures
        asked(r) == create_multiplexer_pane_in(json@),
{
    let multiplexer = match read_may_text(find_field(json, "multiplexer", 0)) {
        Some(v) => v,
        None => {
            return None;
        },
    };
    let side = match read_may_text(find_field(json, "side", 1)) {
        Some(v) => v,
        None => {
            return None;
        },
    };
    let workspace = match read_may_text(find_field(json, "workspace", 2)) {
        Some(v) => v,
        None => {
            return None;
        },
    };
    let no_focus = match read_flag(find_field(json, "no_focus", 3)) {
        Some(v) => v,
        None => {
            return None;
        },
    };
    if !list_fits(json, 4) {
        return None;
    }
    Some(IpcRequest::CreateMultiplexerPane { multiplexer, side, workspace, no_focus })
}

fn read_run_action(json: &Json) -> (r: Option<IpcRequest>)
    ensures
        asked(r) == run_action_in(json@),
{
    let action = match read_text(find_field(json, "action", 0)) {
        Some(v) => v,
        None => {
            return None;
        },
    };
    if !list_fits(json, 1) {
        return None;
    }
    Some(IpcRequest::RunAction { action })
}

fn read_bare(json: &Json, request: IpcRequest) -> (r: Option<IpcRequest>)
    ensures
        asked(r) == bare_in(json@, request@),
{
    if list_fits(json, 0) {
        Some(request)
    } else {
        None
    }
}

/// The view of a request, where there is one.
pub open spec fn asked(r: Option<IpcRequest>) -> Option<Asked> {
    match r {
        Some(request) => Some(request@),
        None => None,
    }
}

/// What requests are called on the wire, in order.
pub open spec fn tags() -> Seq<Seq<char>> {
    seq![
        "add_project"@,
        "attach_multiplexer_pane"@,
        "close_session"@,
        "create_multiplexer_pane"@,
        "create_session"@,
        "create_worktree"@,
        "git_status"@,
        "list_multiplexer_panes"@,
        "list_projects"@,
        "list_sessions"@,
        "move_session"@,
        "read_scratchpad"@,
        "read_screen"@,
        "refresh_project"@,
        "remove_project"@,
        "rename_project"@,
        "run_action"@,
        "select_workspace"@,
        "send_text"@,
    ]
}

/// No two requests have the same name on the wire.
pub proof fn tags_differ()
    ensures
        forall|i: int, j: int| 0 <= i < j < tags().len() ==> #[trigger] tags()[i] != #[trigger] tags()[j],
        tags()[0] == "add_project"@,
        tags()[1] == "attach_multiplexer_pane"@,
        tags()[2] == "close_session"@,
        tags()[3] == "create_multiplexer_pane"@,
        tags()[4] == "create_session"@,
        tags()[5] == "create_worktree"@,
        tags()[6] == "git_status"@,
        tags()[7] == "list_multiplexer_panes"@,
        tags()[8] == "list_projects"@,
        tags()[9] == "list_sessions"@,
        tags()[10] == "move_session"@,
        tags()[11] == "read_scratchpad"@,
        tags()[12] == "read_screen"@,
        tags()[13] == "refresh_project"@,
        tags()[14] == "remove_project"@,
        tags()[15] == "rename_project"@,
        tags()[16] == "run_action"@,
        tags()[17] == "select_workspace"@,
        tags()[18] == "send_text"@,
{
    reveal_strlit("add_project");
    reveal_strlit("attach_multiplexer_pane");
    reveal_strlit("close_session");
    reveal_strlit("create_multiplexer_pane");
    reveal_strlit("create_session");
    reveal_strlit("create_worktree");
    reveal_strlit("git_status");
    reveal_strlit("list_multiplexer_panes");
    reveal_strlit("list_projects");
    reveal_strlit("list_sessions");
    reveal_strlit("move_session");
    reveal_strlit("read_scratchpad");
    reveal_strlit("read_screen");
    reveal_strlit("refresh_project");
    reveal_strlit("remove_project");
    reveal_strlit("rename_project");
    reveal_strlit("run_action");
    reveal_strlit("select_workspace");
    reveal_strlit("send_text");
    first_difference_decides("add_project"@, "attach_multiplexer_pane"@, 1);
    first_difference_decides("attach_multiplexer_pane"@, "close_session"@, 0);
    first_difference_decides("close_session"@, "create_multiplexer_pane"@, 1);
    first_difference_decides("create_multiplexer_pane"@, "create_session"@, 7);
    first_difference_decides("create_session"@, "create_worktree"@, 7);
    first_difference_decides("create_worktree"@, "git_status"@, 0);
    first_difference_decides("git_status"@, "list_multiplexer_panes"@, 0);
    first_difference_decides("list_multiplexer_panes"@, "list_projects"@, 5);
    first_difference_decides("list_projects"@, "list_sessions"@, 5);
    first_difference_decides("list_sessions"@, "move_session"@, 0);
    first_difference_decides("move_session"@, "read_scratchpad"@, 0);
    first_difference_decides("read_scratchpad"@, "read_screen"@, 8);
    first_difference_decides("read_screen"@, "refresh_project"@, 2);
    first_difference_decides("refresh_project"@, "remove_project"@, 2);
    first_difference_decides("remove_project"@, "rename_project"@, 2);
    first_difference_decides("rename_project"@, "run_action"@, 1);
    first_difference_decides("run_action"@, "select_workspace"@, 0);
    first_difference_decides("select_workspace"@, "send_text"@, 2);
    let t = tags();
    assert forall|i: int| 0 <= i < t.len() - 1 implies comes_before(#[trigger] t[i], t[i + 1]) by {}
    neighbours_order_a_list(t);
    assert forall|i: int, j: int| 0 <= i < j < t.len() implies #[trigger] t[i] != #[trigger] t[j] by {
        texts_are_ordered(t[i], t[j]);
    }
}

impl IpcRequest {
    /// What the request is called in the code.
    pub fn name(&self) -> (r: &'static str)
        ensures
            r@ == request_name(self@),
    {
        match self {
            IpcRequest::ListProjects => "ListProjects",
            IpcRequest::ListSessions => "ListSessions",
            IpcRequest::SelectWorkspace { .. } => "SelectWorkspace",
            IpcRequest::CreateSession { .. } => "CreateSession",
            IpcRequest::CloseSession { .. } => "CloseSession",
            IpcRequest::SendText { .. } => "SendText",
            IpcRequest::MoveSession { .. } => "MoveSession",
            IpcRequest::ReadScreen { .. } => "ReadScreen",
            IpcRequest::ReadScratchpad { .. } => "ReadScratchpad",
            IpcRequest::RefreshProject { .. } => "RefreshProject",
            IpcRequest::AddProject { .. } => "AddProject",
            IpcRequest::RemoveProject { .. } => "RemoveProject",
            IpcRequest::RenameProject { .. } => "RenameProject",
            IpcRequest::GitStatus { .. } => "GitStatus",
            IpcRequest::CreateWorktree { .. } => "CreateWorktree",
            IpcRequest::ListMultiplexerPanes => "ListMultiplexerPanes",
            IpcRequest::AttachMultiplexerPane { .. } => "AttachMultiplexerPane",
            IpcRequest::CreateMultiplexerPane { .. } => "CreateMultiplexerPane",
            IpcRequest::RunAction { .. } => "RunAction",
        }
    }

    /// The request a document spells.
    pub fn read(json: &Json) -> (r: Option<IpcRequest>)
        ensures
            asked(r) == request_in(json@),
    {
        let tag = match find_tag(json) {
            Some(tag) => tag,
            None => {
                return None;
            },
        };

        if same(&tag, "add_project") {
            read_add_project(json)
        } else if same(&tag, "attach_multiplexer_pane") {
            read_attach_multiplexer_pane(json)
        } else if same(&tag, "close_session") {
            read_close_session(json)
        } else if same(&tag, "create_multiplexer_pane") {
            read_create_multiplexer_pane(json)
        } else if same(&tag, "create_session") {
            read_create_session(json)
        } else if same(&tag, "create_worktree") {
            read_create_worktree(json)
        } else if same(&tag, "git_status") {
            read_git_status(json)
        } else if same(&tag, "list_multiplexer_panes") {
            read_bare(json, IpcRequest::ListMultiplexerPanes)
        } else if same(&tag, "list_projects") {
            read_bare(json, IpcRequest::ListProjects)
        } else if same(&tag, "list_sessions") {
            read_bare(json, IpcRequest::ListSessions)
        } else if same(&tag, "move_session") {
            read_move_session(json)
        } else if same(&tag, "read_scratchpad") {
            read_read_scratchpad(json)
        } else if same(&tag, "read_screen") {
            read_read_screen(json)
        } else if same(&tag, "refresh_project") {
            read_refresh_project(json)
        } else if same(&tag, "remove_project") {
            read_remove_project(json)
        } else if same(&tag, "rename_project") {
            read_rename_project(json)
        } else if same(&tag, "run_action") {
            read_run_action(json)
        } else if same(&tag, "select_workspace") {
            read_select_workspace(json)
        } else if same(&tag, "send_text") {
            read_send_text(json)
        } else {
            None
        }
    }

    /// The document that spells the request.
    pub fn document(&self) -> (r: Json)
        ensures
            r@ == Tree::Object(request_members(self@)),
    {
        let mut members: Vec<(String, Json)> = Vec::new();
        match self {
            IpcRequest::ListProjects => {
                members.push(("type".to_owned(), json::text("list_projects")));
            },
            IpcRequest::ListSessions => {
                members.push(("type".to_owned(), json::text("list_sessions")));
            },
            IpcRequest::SelectWorkspace { path } => {
                members.push(("path".to_owned(), text_or_null(path)));
                members.push(("type".to_owned(), json::text("select_workspace")));
            },
            IpcRequest::CreateSession { workspace } => {
                members.push(("type".to_owned(), json::text("create_session")));
                members.push(("workspace".to_owned(), text_or_null(workspace)));
            },
            IpcRequest::CloseSession { session_id } => {
                members.push(("session_id".to_owned(), Json::Unsigned(*session_id)));
                members.push(("type".to_owned(), json::text("close_session")));
            },
            IpcRequest::SendText { session_id, text } => {
                members.push(("session_id".to_owned(), Json::Unsigned(*session_id)));
                members.push(("text".to_owned(), json::text(text)));
                members.push(("type".to_owned(), json::text("send_text")));
            },
            IpcRequest::MoveSession { session_id, path } => {
                members.push(("path".to_owned(), json::text(path)));
                members.push(("session_id".to_owned(), Json::Unsigned(*session_id)));
                members.push(("type".to_owned(), json::text("move_session")));
            },
            IpcRequest::ReadScreen { session_id, scrollback_lines } => {
                members.push(("scrollback_lines".to_owned(), Json::Unsigned(*scrollback_lines as u64)));
                members.push(("session_id".to_owned(), Json::Unsigned(*session_id)));
                members.push(("type".to_owned(), json::text("read_screen")));
            },
            IpcRequest::ReadScratchpad { workspace } => {
                members.push(("type".to_owned(), json::text("read_scratchpad")));
                members.push(("workspace".to_owned(), text_or_null(workspace)));
            },
            IpcRequest::RefreshProject { root } => {
                members.push(("root".to_owned(), json::text(root)));
                members.push(("type".to_owned(), json::text("refresh_project")));
            },
            IpcRequest::AddProject { path } => {
                members.push(("path".to_owned(), json::text(path)));
                members.push(("type".to_owned(), json::text("add_project")));
            },
            IpcRequest::RemoveProject { root } => {
                members.push(("root".to_owned(), json::text(root)));
                members.push(("type".to_owned(), json::text("remove_project")));
            },
            IpcRequest::RenameProject { root, label } => {
                members.push(("label".to_owned(), text_or_null(label)));
                members.push(("root".to_owned(), json::text(root)));
                members.push(("type".to_owned(), json::text("rename_project")));
            },
            IpcRequest::GitStatus { path } => {
                members.push(("path".to_owned(), json::text(path)));
                members.push(("type".to_owned(), json::text("git_status")));
            },
            IpcRequest::CreateWorktree { project_root, branch } => {
                members.push(("branch".to_owned(), json::text(branch)));
                members.push(("project_root".to_owned(), json::text(project_root)));
                members.push(("type".to_owned(), json::text("create_worktree")));
            },
            IpcRequest::ListMultiplexerPanes => {
                members.push(("type".to_owned(), json::text("list_multiplexer_panes")));
            },
            IpcRequest::AttachMultiplexerPane { multiplexer, side, terminal_id, no_focus } => {
                members.push(("multiplexer".to_owned(), text_or_null(multiplexer)));
                members.push(("no_focus".to_owned(), Json::Bool(*no_focus)));
                members.push(("side".to_owned(), json::text(side)));
                members.push(("terminal_id".to_owned(), json::text(terminal_id)));
                members.push(("type".to_owned(), json::text("attach_multiplexer_pane")));
            },
            IpcRequest::CreateMultiplexerPane { multiplexer, side, workspace, no_focus } => {
                members.push(("multiplexer".to_owned(), text_or_null(multiplexer)));
                members.push(("no_focus".to_owned(), Json::Bool(*no_focus)));
                members.push(("side".to_owned(), text_or_null(side)));
                members.push(("type".to_owned(), json::text("create_multiplexer_pane")));
                members.push(("workspace".to_owned(), text_or_null(workspace)));
            },
            IpcRequest::RunAction { action } => {
                members.push(("action".to_owned(), json::text(action)));
                members.push(("type".to_owned(), json::text("run_action")));
            },
        }
        assert(member_trees(members@) =~= request_members(self@));
        object(members)
    }

    /// The line that asks it.
    pub fn line(&self) -> (r: String)
        ensures
            r@ == document_text(Tree::Object(request_members(self@))),
            document(r@) == Some(Tree::Object(request_members(self@))),
    {
        proof {
            a_request_reads_back_as_text(self@);
        }
        self.document().line()
    }
}

/// Why a line asks for nothing.
#[derive(Debug, PartialEq, Eq)]
pub enum Unread {
    /// The reader of the wire's own type refuses it, in these words.
    Refused(String),
    /// The line is no document, with what its reader says is wrong with it.
    NoDocument(String),
    /// The document is none of the requests.
    NoRequest,
}

/// Why a line asks for nothing, viewed.
pub enum UnreadView {
    Refused(Seq<char>),
    NoDocument(Seq<char>),
    NoRequest,
}

impl View for Unread {
    type V = UnreadView;

    open spec fn view(&self) -> UnreadView {
        match self {
            Unread::Refused(words) => UnreadView::Refused(words@),
            Unread::NoDocument(words) => UnreadView::NoDocument(words@),
            Unread::NoRequest => UnreadView::NoRequest,
        }
    }
}

/// How a line that asks for nothing is refused.
pub open spec fn refusal(unread: UnreadView) -> Seq<char> {
    "invalid IPC request: "@ + match unread {
        UnreadView::Refused(words) => words,
        UnreadView::NoDocument(words) => words,
        UnreadView::NoRequest => "not a request"@,
    }
}

impl Unread {
    /// How the line is refused.
    pub fn message(&self) -> (r: String)
        ensures
            r@ == refusal(self@),
    {
        match self {
            Unread::Refused(words) => concat2("invalid IPC request: ", words.as_str()),
            Unread::NoDocument(words) => concat2("invalid IPC request: ", words.as_str()),
            Unread::NoRequest => concat2("invalid IPC request: ", "not a request"),
        }
    }
}

/// The request a line asks, or why it asks none.  `complaint` is what the
/// reader of the wire's own type has against the line, such as a field that is
/// given twice, which the document does not show.
pub open spec fn request_read(line: Seq<char>, complaint: Option<Seq<char>>) -> Result<
    Asked,
    UnreadView,
> {
    match (complaint, read_document(line)) {
        (Some(words), _) => Err(UnreadView::Refused(words)),
        (None, Err(words)) => Err(UnreadView::NoDocument(words)),
        (None, Ok(tree)) => match request_in(tree) {
            Some(request) => Ok(request),
            None => Err(UnreadView::NoRequest),
        },
    }
}

/// The request a line asks, or why it asks none.
pub fn read_line(line: &str, complaint: Option<&str>) -> (r: Result<IpcRequest, Unread>)
    ensures
        (match r {
            Ok(request) => Ok(request@),
            Err(unread) => Err(unread@),
        }) == request_read(line@, opt_slice(complaint)),
{
    if let Some(words) = complaint {
        return Err(Unread::Refused(words.to_owned()));
    }
    match Json::read(line) {
        Err(words) => Err(Unread::NoDocument(words)),
        Ok(json) => match IpcRequest::read(&json) {
            Some(request) => Ok(request),
            None => Err(Unread::NoRequest),
        },
    }
}

/// A line that its own reader refuses is refused in that reader's words.
pub proof fn a_refused_line_asks_nothing(line: Seq<char>, words: Seq<char>)
    ensures
        request_read(line, Some(words)) == Err::<Asked, UnreadView>(UnreadView::Refused(words)),
        refusal(UnreadView::Refused(words)) == "invalid IPC request: "@ + words,
{
}

proof fn names_in_order()
    ensures
        comes_before("action"@, "type"@),
        comes_before("branch"@, "project_root"@),
        comes_before("branch"@, "type"@),
        comes_before("label"@, "root"@),
        comes_before("label"@, "type"@),
        comes_before("multiplexer"@, "no_focus"@),
        comes_before("multiplexer"@, "side"@),
        comes_before("multiplexer"@, "terminal_id"@),
        comes_before("multiplexer"@, "type"@),
        comes_before("multiplexer"@, "workspace"@),
        comes_before("no_focus"@, "side"@),
        comes_before("no_focus"@, "terminal_id"@),
        comes_before("no_focus"@, "type"@),
        comes_before("no_focus"@, "workspace"@),
        comes_before("path"@, "session_id"@),
        comes_before("path"@, "type"@),
        comes_before("project_root"@, "type"@),
        comes_before("root"@, "type"@),
        comes_before("scrollback_lines"@, "session_id"@),
        comes_before("scrollback_lines"@, "type"@),
        comes_before("session_id"@, "text"@),
        comes_before("session_id"@, "type"@),
        comes_before("side"@, "terminal_id"@),
        comes_before("side"@, "type"@),
        comes_before("side"@, "workspace"@),
        comes_before("terminal_id"@, "type"@),
        comes_before("text"@, "type"@),
        comes_before("type"@, "workspace"@),
{
    reveal_strlit("action");
    reveal_strlit("branch");
    reveal_strlit("label");
    reveal_strlit("multiplexer");
    reveal_strlit("no_focus");
    reveal_strlit("path");
    reveal_strlit("project_root");
    reveal_strlit("root");
    reveal_strlit("scrollback_lines");
    reveal_strlit("session_id");
    reveal_strlit("side");
    reveal_strlit("terminal_id");
    reveal_strlit("text");
    reveal_strlit("type");
    reveal_strlit("workspace");
    first_difference_decides("action"@, "type"@, 0);
    first_difference_decides("branch"@, "project_root"@, 0);
    first_difference_decides("branch"@, "type"@, 0);
    first_difference_decides("label"@, "root"@, 0);
    first_difference_decides("label"@, "type"@, 0);
    first_difference_decides("multiplexer"@, "no_focus"@, 0);
    first_difference_decides("multiplexer"@, "side"@, 0);
    first_difference_decides("multiplexer"@, "terminal_id"@, 0);
    first_difference_decides("multiplexer"@, "type"@, 0);
    first_difference_decides("multiplexer"@, "workspace"@, 0);
    first_difference_decides("no_focus"@, "side"@, 0);
    first_difference_decides("no_focus"@, "terminal_id"@, 0);
    first_difference_decides("no_focus"@, "type"@, 0);
    first_difference_decides("no_focus"@, "workspace"@, 0);
    first_difference_decides("path"@, "session_id"@, 0);
    first_difference_decides("path"@, "type"@, 0);
    first_difference_decides("project_root"@, "type"@, 0);
    first_difference_decides("root"@, "type"@, 0);
    first_difference_decides("scrollback_lines"@, "session_id"@, 1);
    first_difference_decides("scrollback_lines"@, "type"@, 0);
    first_difference_decides("session_id"@, "text"@, 0);
    first_difference_decides("session_id"@, "type"@, 0);
    first_difference_decides("side"@, "terminal_id"@, 0);
    first_difference_decides("side"@, "type"@, 0);
    first_difference_decides("side"@, "workspace"@, 0);
    first_difference_decides("terminal_id"@, "type"@, 1);
    first_difference_decides("text"@, "type"@, 1);
    first_difference_decides("type"@, "workspace"@, 0);
}

proof fn members_in_order(request: Asked)
    ensures
        strictly_ordered(member_names(request_members(request))),
{
    names_in_order();
    let members = request_members(request);
    let names = member_names(members);
    match request {
        Asked::ListProjects => {
            assert(names =~= seq!["type"@]);
        },
        Asked::ListSessions => {
            assert(names =~= seq!["type"@]);
        },
        Asked::SelectWorkspace { .. } => {
            assert(names =~= seq!["path"@, "type"@]);
        },
        Asked::CreateSession { .. } => {
            assert(names =~= seq!["type"@, "workspace"@]);
        },
        Asked::CloseSession { .. } => {
            assert(names =~= seq!["session_id"@, "type"@]);
        },
        Asked::SendText { .. } => {
            assert(names =~= seq!["session_id"@, "text"@, "type"@]);
        },
        Asked::MoveSession { .. } => {
            assert(names =~= seq!["path"@, "session_id"@, "type"@]);
        },
        Asked::ReadScreen { .. } => {
            assert(names =~= seq!["scrollback_lines"@, "session_id"@, "type"@]);
        },
        Asked::ReadScratchpad { .. } => {
            assert(names =~= seq!["type"@, "workspace"@]);
        },
        Asked::RefreshProject { .. } => {
            assert(names =~= seq!["root"@, "type"@]);
        },
        Asked::AddProject { .. } => {
            assert(names =~= seq!["path"@, "type"@]);
        },
        Asked::RemoveProject { .. } => {
            assert(names =~= seq!["root"@, "type"@]);
        },
        Asked::RenameProject { .. } => {
            assert(names =~= seq!["label"@, "root"@, "type"@]);
        },
        Asked::GitStatus { .. } => {
            assert(names =~= seq!["path"@, "type"@]);
        },
        Asked::CreateWorktree { .. } => {
            assert(names =~= seq!["branch"@, "project_root"@, "type"@]);
        },
        Asked::ListMultiplexerPanes => {
            assert(names =~= seq!["type"@]);
        },
        Asked::AttachMultiplexerPane { .. } => {
            assert(names =~= seq!["multiplexer"@, "no_focus"@, "side"@, "terminal_id"@, "type"@]);
        },
        Asked::CreateMultiplexerPane { .. } => {
            assert(names =~= seq!["multiplexer"@, "no_focus"@, "side"@, "type"@, "workspace"@]);
        },
        Asked::RunAction { .. } => {
            assert(names =~= seq!["action"@, "type"@]);
        },
    }
}

/// A request comes back from its line as it was spelled.
pub proof fn a_request_reads_back_as_text(request: Asked)
    ensures
        reads_back(Tree::Object(request_members(request))),
{
    members_in_order(request);
    let members = request_members(request);
    assert forall|i: int| 0 <= i < members.len() implies in_order((#[trigger] members[i]).1) && nesting(
        members[i].1,
        99,
    ) by {}
}

/// Every request is read as the request it was spelled from.
pub proof fn a_spelled_request_reads_back(request: Asked)
    ensures
        request_in(Tree::Object(request_members(request))) == Some(request),
{
    tags_differ();
    members_in_order(request);
    let members = request_members(request);
    match request {
        Asked::ListProjects => {
            a_named_member_is_found(members, 0);
        },
        Asked::ListSessions => {
            a_named_member_is_found(members, 0);
        },
        Asked::SelectWorkspace { .. } => {
            a_named_member_is_found(members, 0);
            a_named_member_is_found(members, 1);
        },
        Asked::CreateSession { .. } => {
            a_named_member_is_found(members, 0);
            a_named_member_is_found(members, 1);
        },
        Asked::CloseSession { .. } => {
            a_named_member_is_found(members, 0);
            a_named_member_is_found(members, 1);
        },
        Asked::SendText { .. } => {
            a_named_member_is_found(members, 0);
            a_named_member_is_found(members, 1);
            a_named_member_is_found(members, 2);
        },
        Asked::MoveSession { .. } => {
            a_named_member_is_found(members, 0);
            a_named_member_is_found(members, 1);
            a_named_member_is_found(members, 2);
        },
        Asked::ReadScreen { .. } => {
            a_named_member_is_found(members, 0);
            a_named_member_is_found(members, 1);
            a_named_member_is_found(members, 2);
        },
        Asked::ReadScratchpad { .. } => {
            a_named_member_is_found(members, 0);
            a_named_member_is_found(members, 1);
        },
        Asked::RefreshProject { .. } => {
            a_named_member_is_found(members, 0);
            a_named_member_is_found(members, 1);
        },
        Asked::AddProject { .. } => {
            a_named_member_is_found(members, 0);
            a_named_member_is_found(members, 1);
        },
        Asked::RemoveProject { .. } => {
            a_named_member_is_found(members, 0);
            a_named_member_is_found(members, 1);
        },
        Asked::RenameProject { .. } => {
            a_named_member_is_found(members, 0);
            a_named_member_is_found(members, 1);
            a_named_member_is_found(members, 2);
        },
        Asked::GitStatus { .. } => {
            a_named_member_is_found(members, 0);
            a_named_member_is_found(members, 1);
        },
        Asked::CreateWorktree { .. } => {
            a_named_member_is_found(members, 0);
            a_named_member_is_found(members, 1);
            a_named_member_is_found(members, 2);
        },
        Asked::ListMultiplexerPanes => {
            a_named_member_is_found(members, 0);
        },
        Asked::AttachMultiplexerPane { .. } => {
            a_named_member_is_found(members, 0);
            a_named_member_is_found(members, 1);
            a_named_member_is_found(members, 2);
            a_named_member_is_found(members, 3);
            a_named_member_is_found(members, 4);
        },
        Asked::CreateMultiplexerPane { .. } => {
            a_named_member_is_found(members, 0);
            a_named_member_is_found(members, 1);
            a_named_member_is_found(members, 2);
            a_named_member_is_found(members, 3);
            a_named_member_is_found(members, 4);
        },
        Asked::RunAction { .. } => {
            a_named_member_is_found(members, 0);
            a_named_member_is_found(members, 1);
        },
    }
}

/// What a client asks is what the app hears: the line of a request is read as
/// that request.
pub proof fn a_request_crosses_the_wire(request: Asked, line: Seq<char>)
    requires
        document(line) == Some(Tree::Object(request_members(request))),
    ensures
        request_read(line, None) == Ok::<Asked, UnreadView>(request),
{
    a_spelled_request_reads_back(request);
}

} // verus!

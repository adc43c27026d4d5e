//! Which member of a document becomes which part of a request.

use vstd::prelude::*;

#[allow(unused_imports)]
use crate::ipc::request::{request_in, request_members, request_name, tags_differ, Asked, IpcRequest};
#[allow(unused_imports)]
use crate::json::{lookup, Tree};

verus! {

/// The document says what it asks for.
pub open spec fn asks_for(members: Seq<(Seq<char>, Tree)>, name: Seq<char>) -> bool {
    lookup(members, "type"@) == Some(Tree::Text(name))
}

/// A value that is a text.
pub open spec fn given_text(value: Option<Tree>, text: Seq<char>) -> bool {
    value == Some(Tree::Text(text))
}

/// A text, or nothing where the value is left out or null.
pub open spec fn given_or_left_out(value: Option<Tree>, text: Option<Seq<char>>) -> bool {
    match text {
        Some(t) => value == Some(Tree::Text(t)),
        None => value is None || value == Some(Tree::Null),
    }
}

/// A value that is a whole number, zero or more.
pub open spec fn given_count(value: Option<Tree>, count: u64) -> bool {
    value == Some(Tree::Unsigned(count))
}

/// A whole number, or none where the value is left out.
pub open spec fn given_size(value: Option<Tree>, size: usize) -> bool {
    value == Some(Tree::Unsigned(size as u64)) || (value is None && size == 0)
}

/// A yes or no, which is no where the value is left out.
pub open spec fn given_flag(value: Option<Tree>, flag: bool) -> bool {
    value == Some(Tree::Bool(flag)) || (value is None && !flag)
}

/// A `select_workspace` document is read by `path`
/// and by no other member: it asks for what is given there, and for nothing
/// where that is not of its kind.
pub proof fn select_workspace_is_read_by_its_members(members: Seq<(Seq<char>, Tree)>, path: Option<Seq<char>>)
    requires
        asks_for(members, "select_workspace"@),
    ensures
        request_in(Tree::Object(members)) == Some(Asked::SelectWorkspace { path }) <==> {
            &&& given_or_left_out(lookup(members, "path"@), path)
        },
        request_in(Tree::Object(members)) matches Some(request) ==> request is SelectWorkspace,
{
    tags_differ();
}

/// A `create_session` document is read by `workspace`
/// and by no other member: it asks for what is given there, and for nothing
/// where that is not of its kind.
pub proof fn create_session_is_read_by_its_members(members: Seq<(Seq<char>, Tree)>, workspace: Option<Seq<char>>)
    requires
        asks_for(members, "create_session"@),
    ensures
        request_in(Tree::Object(members)) == Some(Asked::CreateSession { workspace }) <==> {
            &&& given_or_left_out(lookup(members, "workspace"@), workspace)
        },
        request_in(Tree::Object(members)) matches Some(request) ==> request is CreateSession,
{
    tags_differ();
}

/// A `close_session` document is read by `session_id`
/// and by no other member: it asks for what is given there, and for nothing
/// where that is not of its kind.
pub proof fn close_session_is_read_by_its_members(members: Seq<(Seq<char>, Tree)>, session_id: u64)
    requires
        asks_for(members, "close_session"@),
    ensures
        request_in(Tree::Object(members)) == Some(Asked::CloseSession { session_id }) <==> {
            &&& given_count(lookup(members, "session_id"@), session_id)
        },
        request_in(Tree::Object(members)) matches Some(request) ==> request is CloseSession,
{
    tags_differ();
}

/// A `send_text` document is read by `session_id` and `text`
/// and by no other member: it asks for what is given there, and for nothing
/// where that is not of its kind.
pub proof fn send_text_is_read_by_its_members(members: Seq<(Seq<char>, Tree)>, session_id: u64, text: Seq<char>)
    requires
        asks_for(members, "send_text"@),
    ensures
        request_in(Tree::Object(members)) == Some(Asked::SendText { session_id, text }) <==> {
            &&& given_count(lookup(members, "session_id"@), session_id)
            &&& given_text(lookup(members, "text"@), text)
        },
        request_in(Tree::Object(members)) matches Some(request) ==> request is SendText,
{
    tags_differ();
}

/// A `move_session` document is read by `session_id` and `path`
/// and by no other member: it asks for what is given there, and for nothing
/// where that is not of its kind.
pub proof fn move_session_is_read_by_its_members(members: Seq<(Seq<char>, Tree)>, session_id: u64, path: Seq<char>)
    requires
        asks_for(members, "move_session"@),
    ensures
        request_in(Tree::Object(members)) == Some(Asked::MoveSession { session_id, path }) <==> {
            &&& given_count(lookup(members, "session_id"@), session_id)
            &&& given_text(lookup(members, "path"@), path)
        },
        request_in(Tree::Object(members)) matches Some(request) ==> request is MoveSession,
{
    tags_differ();
}

/// A `read_screen` document is read by `session_id` and `scrollback_lines`
/// and by no other member: it asks for what is given there, and for nothing
/// where that is not of its kind.
pub proof fn read_screen_is_read_by_its_members(members: Seq<(Seq<char>, Tree)>, session_id: u64, scrollback_lines: usize)
    requires
        asks_for(members, "read_screen"@),
    ensures
        request_in(Tree::Object(members)) == Some(Asked::ReadScreen { session_id, scrollback_lines }) <==> {
            &&& given_count(lookup(members, "session_id"@), session_id)
            &&& given_size(lookup(members, "scrollback_lines"@), scrollback_lines)
        },
        request_in(Tree::Object(members)) matches Some(request) ==> request is ReadScreen,
{
    tags_differ();
}

/// A `read_scratchpad` document is read by `workspace`
/// and by no other member: it asks for what is given there, and for nothing
/// where that is not of its kind.
pub proof fn read_scratchpad_is_read_by_its_members(members: Seq<(Seq<char>, Tree)>, workspace: Option<Seq<char>>)
    requires
        asks_for(members, "read_scratchpad"@),
    ensures
        request_in(Tree::Object(members)) == Some(Asked::ReadScratchpad { workspace }) <==> {
            &&& given_or_left_out(lookup(members, "workspace"@), workspace)
        },
        request_in(Tree::Object(members)) matches Some(request) ==> request is ReadScratchpad,
{
    tags_differ();
}

/// A `refresh_project` document is read by `root`
/// and by no other member: it asks for what is given there, and for nothing
/// where that is not of its kind.
pub proof fn refresh_project_is_read_by_its_members(members: Seq<(Seq<char>, Tree)>, root: Seq<char>)
    requires
        asks_for(members, "refresh_project"@),
    ensures
        request_in(Tree::Object(members)) == Some(Asked::RefreshProject { root }) <==> {
            &&& given_text(lookup(members, "root"@), root)
        },
        request_in(Tree::Object(members)) matches Some(request) ==> request is RefreshProject,
{
    tags_differ();
}

/// A `add_project` document is read by `path`
/// and by no other member: it asks for what is given there, and for nothing
/// where that is not of its kind.
pub proof fn add_project_is_read_by_its_members(members: Seq<(Seq<char>, Tree)>, path: Seq<char>)
    requires
        asks_for(members, "add_project"@),
    ensures
        request_in(Tree::Object(members)) == Some(Asked::AddProject { path }) <==> {
            &&& given_text(lookup(members, "path"@), path)
        },
        request_in(Tree::Object(members)) matches Some(request) ==> request is AddProject,
{
    tags_differ();
}

/// A `remove_project` document is read by `root`
/// and by no other member: it asks for what is given there, and for nothing
/// where that is not of its kind.
pub proof fn remove_project_is_read_by_its_members(members: Seq<(Seq<char>, Tree)>, root: Seq<char>)
    requires
        asks_for(members, "remove_project"@),
    ensures
        request_in(Tree::Object(members)) == Some(Asked::RemoveProject { root }) <==> {
            &&& given_text(lookup(members, "root"@), root)
        },
        request_in(Tree::Object(members)) matches Some(request) ==> request is RemoveProject,
{
    tags_differ();
}

/// A `rename_project` document is read by `root` and `label`
/// and by no other member: it asks for what is given there, and for nothing
/// where that is not of its kind.
pub proof fn rename_project_is_read_by_its_members(members: Seq<(Seq<char>, Tree)>, root: Seq<char>, label: Option<Seq<char>>)
    requires
        asks_for(members, "rename_project"@),
    ensures
        request_in(Tree::Object(members)) == Some(Asked::RenameProject { root, label }) <==> {
            &&& given_text(lookup(members, "root"@), root)
            &&& given_or_left_out(lookup(members, "label"@), label)
        },
        request_in(Tree::Object(members)) matches Some(request) ==> request is RenameProject,
{
    tags_differ();
}

/// A `git_status` document is read by `path`
/// and by no other member: it asks for what is given there, and for nothing
/// where that is not of its kind.
pub proof fn git_status_is_read_by_its_members(members: Seq<(Seq<char>, Tree)>, path: Seq<char>)
    requires
        asks_for(members, "git_status"@),
    ensures
        request_in(Tree::Object(members)) == Some(Asked::GitStatus { path }) <==> {
            &&& given_text(lookup(members, "path"@), path)
        },
        request_in(Tree::Object(members)) matches Some(request) ==> request is GitStatus,
{
    tags_differ();
}

/// A `create_worktree` document is read by `project_root` and `branch`
/// and by no other member: it asks for what is given there, and for nothing
/// where that is not of its kind.
pub proof fn create_worktree_is_read_by_its_members(members: Seq<(Seq<char>, Tree)>, project_root: Seq<char>, branch: Seq<char>)
    requires
        asks_for(members, "create_worktree"@),
    ensures
        request_in(Tree::Object(members)) == Some(Asked::CreateWorktree { project_root, branch }) <==> {
            &&& given_text(lookup(members, "project_root"@), project_root)
            &&& given_text(lookup(members, "branch"@), branch)
        },
        request_in(Tree::Object(members)) matches Some(request) ==> request is CreateWorktree,
{
    tags_differ();
}

/// A `attach_multiplexer_pane` document is read by `multiplexer` and `side` and `terminal_id` and `no_focus`
/// and by no other member: it asks for what is given there, and for nothing
/// where that is not of its kind.
pub proof fn attach_multiplexer_pane_is_read_by_its_members(members: Seq<(Seq<char>, Tree)>, multiplexer: Option<Seq<char>>, side: Seq<char>, terminal_id: Seq<char>, no_focus: bool)
    requires
        asks_for(members, "attach_multiplexer_pane"@),
    ensures
        request_in(Tree::Object(members)) == Some(Asked::AttachMultiplexerPane { multiplexer, side, terminal_id, no_focus }) <==> {
            &&& given_or_left_out(lookup(members, "multiplexer"@), multiplexer)
            &&& given_text(lookup(members, "side"@), side)
            &&& given_text(lookup(members, "terminal_id"@), terminal_id)
            &&& given_flag(lookup(members, "no_focus"@), no_focus)
        },
        request_in(Tree::Object(members)) matches Some(request) ==> request is AttachMultiplexerPane,
{
    tags_differ();
}

/// A `create_multiplexer_pane` document is read by `multiplexer` and `side` and `workspace` and `no_focus`
/// and by no other member: it asks for what is given there, and for nothing
/// where that is not of its kind.
pub proof fn create_multiplexer_pane_is_read_by_its_members(members: Seq<(Seq<char>, Tree)>, multiplexer: Option<Seq<char>>, side: Option<Seq<char>>, workspace: Option<Seq<char>>, no_focus: bool)
    requires
        asks_for(members, "create_multiplexer_pane"@),
    ensures
        request_in(Tree::Object(members)) == Some(Asked::CreateMultiplexerPane { multiplexer, side, workspace, no_focus }) <==> {
            &&& given_or_left_out(lookup(members, "multiplexer"@), multiplexer)
            &&& given_or_left_out(lookup(members, "side"@), side)
            &&& given_or_left_out(lookup(members, "workspace"@), workspace)
            &&& given_flag(lookup(members, "no_focus"@), no_focus)
        },
        request_in(Tree::Object(members)) matches Some(request) ==> request is CreateMultiplexerPane,
{
    tags_differ();
}

/// A `run_action` document is read by `action`
/// and by no other member: it asks for what is given there, and for nothing
/// where that is not of its kind.
pub proof fn run_action_is_read_by_its_members(members: Seq<(Seq<char>, Tree)>, action: Seq<char>)
    requires
        asks_for(members, "run_action"@),
    ensures
        request_in(Tree::Object(members)) == Some(Asked::RunAction { action }) <==> {
            &&& given_text(lookup(members, "action"@), action)
        },
        request_in(Tree::Object(members)) matches Some(request) ==> request is RunAction,
{
    tags_differ();
}

/// A `list_projects` document needs no member but its type.
pub proof fn list_projects_is_read_by_its_type(members: Seq<(Seq<char>, Tree)>)
    requires
        asks_for(members, "list_projects"@),
    ensures
        request_in(Tree::Object(members)) == Some(Asked::ListProjects),
{
    tags_differ();
}

/// A `list_sessions` document needs no member but its type.
pub proof fn list_sessions_is_read_by_its_type(members: Seq<(Seq<char>, Tree)>)
    requires
        asks_for(members, "list_sessions"@),
    ensures
        request_in(Tree::Object(members)) == Some(Asked::ListSessions),
{
    tags_differ();
}

/// A `list_multiplexer_panes` document needs no member but its type.
pub proof fn list_multiplexer_panes_is_read_by_its_type(members: Seq<(Seq<char>, Tree)>)
    requires
        asks_for(members, "list_multiplexer_panes"@),
    ensures
        request_in(Tree::Object(members)) == Some(Asked::ListMultiplexerPanes),
{
    tags_differ();
}

/// A document that names no request, or none of these, asks for nothing.
pub proof fn an_unknown_type_asks_for_nothing(members: Seq<(Seq<char>, Tree)>)
    requires
        !asks_for(members, "add_project"@),
        !asks_for(members, "attach_multiplexer_pane"@),
        !asks_for(members, "close_session"@),
        !asks_for(members, "create_multiplexer_pane"@),
        !asks_for(members, "create_session"@),
        !asks_for(members, "create_worktree"@),
        !asks_for(members, "git_status"@),
        !asks_for(members, "list_multiplexer_panes"@),
        !asks_for(members, "list_projects"@),
        !asks_for(members, "list_sessions"@),
        !asks_for(members, "move_session"@),
        !asks_for(members, "read_scratchpad"@),
        !asks_for(members, "read_screen"@),
        !asks_for(members, "refresh_project"@),
        !asks_for(members, "remove_project"@),
        !asks_for(members, "rename_project"@),
        !asks_for(members, "run_action"@),
        !asks_for(members, "select_workspace"@),
        !asks_for(members, "send_text"@),
    ensures
        request_in(Tree::Object(members)) is None,
{
}

/// A document that is neither an object nor a row of values asks for nothing.
pub proof fn a_bare_value_asks_for_nothing(tree: Tree)
    requires
        !(tree is Object),
        !(tree is Array),
    ensures
        request_in(tree) is None,
{
}

/// A request may also be a row: its name first, then its parts in the order
/// they are declared in, and not one more.
pub proof fn a_request_is_read_from_a_row(items: Seq<Tree>, request: Asked)
    requires
        items.len() > 0,
    ensures

        request matches Asked::SelectWorkspace { path } ==> items.len() == 2 && items[0] == Tree::Text("select_workspace"@) ==> (
            request_in(Tree::Array(items)) == Some(request) <==> given_or_left_out(Some(items[1]), path)),
        request matches Asked::CreateSession { workspace } ==> items.len() == 2 && items[0] == Tree::Text("create_session"@) ==> (
            request_in(Tree::Array(items)) == Some(request) <==> given_or_left_out(Some(items[1]), workspace)),
        request matches Asked::CloseSession { session_id } ==> items.len() == 2 && items[0] == Tree::Text("close_session"@) ==> (
            request_in(Tree::Array(items)) == Some(request) <==> given_count(Some(items[1]), session_id)),
        request matches Asked::SendText { session_id, text } ==> items.len() == 3 && items[0] == Tree::Text("send_text"@) ==> (
            request_in(Tree::Array(items)) == Some(request) <==> given_count(Some(items[1]), session_id) && given_text(Some(items[2]), text)),
        request matches Asked::MoveSession { session_id, path } ==> items.len() == 3 && items[0] == Tree::Text("move_session"@) ==> (
            request_in(Tree::Array(items)) == Some(request) <==> given_count(Some(items[1]), session_id) && given_text(Some(items[2]), path)),
        request matches Asked::ReadScreen { session_id, scrollback_lines } ==> items.len() == 3 && items[0] == Tree::Text("read_screen"@) ==> (
            request_in(Tree::Array(items)) == Some(request) <==> given_count(Some(items[1]), session_id) && given_size(Some(items[2]), scrollback_lines)),
        request matches Asked::ReadScratchpad { workspace } ==> items.len() == 2 && items[0] == Tree::Text("read_scratchpad"@) ==> (
            request_in(Tree::Array(items)) == Some(request) <==> given_or_left_out(Some(items[1]), workspace)),
        request matches Asked::RefreshProject { root } ==> items.len() == 2 && items[0] == Tree::Text("refresh_project"@) ==> (
            request_in(Tree::Array(items)) == Some(request) <==> given_text(Some(items[1]), root)),
        request matches Asked::AddProject { path } ==> items.len() == 2 && items[0] == Tree::Text("add_project"@) ==> (
            request_in(Tree::Array(items)) == Some(request) <==> given_text(Some(items[1]), path)),
        request matches Asked::RemoveProject { root } ==> items.len() == 2 && items[0] == Tree::Text("remove_project"@) ==> (
            request_in(Tree::Array(items)) == Some(request) <==> given_text(Some(items[1]), root)),
        request matches Asked::RenameProject { root, label } ==> items.len() == 3 && items[0] == Tree::Text("rename_project"@) ==> (
            request_in(Tree::Array(items)) == Some(request) <==> given_text(Some(items[1]), root) && given_or_left_out(Some(items[2]), label)),
        request matches Asked::GitStatus { path } ==> items.len() == 2 && items[0] == Tree::Text("git_status"@) ==> (
            request_in(Tree::Array(items)) == Some(request) <==> given_text(Some(items[1]), path)),
        request matches Asked::CreateWorktree { project_root, branch } ==> items.len() == 3 && items[0] == Tree::Text("create_worktree"@) ==> (
            request_in(Tree::Array(items)) == Some(request) <==> given_text(Some(items[1]), project_root) && given_text(Some(items[2]), branch)),
        request matches Asked::AttachMultiplexerPane { multiplexer, side, terminal_id, no_focus } ==> items.len() == 5 && items[0] == Tree::Text("attach_multiplexer_pane"@) ==> (
            request_in(Tree::Array(items)) == Some(request) <==> given_or_left_out(Some(items[1]), multiplexer) && given_text(Some(items[2]), side) && given_text(Some(items[3]), terminal_id) && given_flag(Some(items[4]), no_focus)),
        request matches Asked::CreateMultiplexerPane { multiplexer, side, workspace, no_focus } ==> items.len() == 5 && items[0] == Tree::Text("create_multiplexer_pane"@) ==> (
            request_in(Tree::Array(items)) == Some(request) <==> given_or_left_out(Some(items[1]), multiplexer) && given_or_left_out(Some(items[2]), side) && given_or_left_out(Some(items[3]), workspace) && given_flag(Some(items[4]), no_focus)),
        request matches Asked::RunAction { action } ==> items.len() == 2 && items[0] == Tree::Text("run_action"@) ==> (
            request_in(Tree::Array(items)) == Some(request) <==> given_text(Some(items[1]), action)),
        request == Asked::ListProjects ==> items.len() == 1 && items[0] == Tree::Text("list_projects"@)
            ==> request_in(Tree::Array(items)) == Some(request),
        request == Asked::ListSessions ==> items.len() == 1 && items[0] == Tree::Text("list_sessions"@)
            ==> request_in(Tree::Array(items)) == Some(request),
        request == Asked::ListMultiplexerPanes ==> items.len() == 1 && items[0] == Tree::Text("list_multiplexer_panes"@)
            ==> request_in(Tree::Array(items)) == Some(request),
        items.len() > 5 ==> request_in(Tree::Array(items)) is None,
        !(items[0] is Text) ==> request_in(Tree::Array(items)) is None,
{
    tags_differ();
    assert(usize::MAX <= u64::MAX);
}

/// What is sent for a request carries its name as `type` and each of its parts
/// under its own name, with null for a text that is not given.
pub proof fn a_request_is_sent_under_its_names(request: Asked)
    ensures
        match request {
            Asked::SelectWorkspace { path } => {
                let members = request_members(request);
                &&& members.len() == 2
                &&& members[1] == ("type"@, Tree::Text("select_workspace"@))
                &&& members[0].0 == "path"@
                &&& path matches Some(t) ==> members[0].1 == Tree::Text(t)
                &&& path is None ==> members[0].1 == Tree::Null
            },
            Asked::CreateSession { workspace } => {
                let members = request_members(request);
                &&& members.len() == 2
                &&& members[0] == ("type"@, Tree::Text("create_session"@))
                &&& members[1].0 == "workspace"@
                &&& workspace matches Some(t) ==> members[1].1 == Tree::Text(t)
                &&& workspace is None ==> members[1].1 == Tree::Null
            },
            Asked::CloseSession { session_id } => {
                let members = request_members(request);
                &&& members.len() == 2
                &&& members[1] == ("type"@, Tree::Text("close_session"@))
                &&& members[0] == ("session_id"@, Tree::Unsigned(session_id))
            },
            Asked::SendText { session_id, text } => {
                let members = request_members(request);
                &&& members.len() == 3
                &&& members[2] == ("type"@, Tree::Text("send_text"@))
                &&& members[0] == ("session_id"@, Tree::Unsigned(session_id))
                &&& members[1] == ("text"@, Tree::Text(text))
            },
            Asked::MoveSession { session_id, path } => {
                let members = request_members(request);
                &&& members.len() == 3
                &&& members[2] == ("type"@, Tree::Text("move_session"@))
                &&& members[1] == ("session_id"@, Tree::Unsigned(session_id))
                &&& members[0] == ("path"@, Tree::Text(path))
            },
            Asked::ReadScreen { session_id, scrollback_lines } => {
                let members = request_members(request);
                &&& members.len() == 3
                &&& members[2] == ("type"@, Tree::Text("read_screen"@))
                &&& members[1] == ("session_id"@, Tree::Unsigned(session_id))
                &&& members[0] == ("scrollback_lines"@, Tree::Unsigned(scrollback_lines as u64))
            },
            Asked::ReadScratchpad { workspace } => {
                let members = request_members(request);
                &&& members.len() == 2
                &&& members[0] == ("type"@, Tree::Text("read_scratchpad"@))
                &&& members[1].0 == "workspace"@
                &&& workspace matches Some(t) ==> members[1].1 == Tree::Text(t)
                &&& workspace is None ==> members[1].1 == Tree::Null
            },
            Asked::RefreshProject { root } => {
                let members = request_members(request);
                &&& members.len() == 2
                &&& members[1] == ("type"@, Tree::Text("refresh_project"@))
                &&& members[0] == ("root"@, Tree::Text(root))
            },
            Asked::AddProject { path } => {
                let members = request_members(request);
                &&& members.len() == 2
                &&& members[1] == ("type"@, Tree::Text("add_project"@))
                &&& members[0] == ("path"@, Tree::Text(path))
            },
            Asked::RemoveProject { root } => {
                let members = request_members(request);
                &&& members.len() == 2
                &&& members[1] == ("type"@, Tree::Text("remove_project"@))
                &&& members[0] == ("root"@, Tree::Text(root))
            },
            Asked::RenameProject { root, label } => {
                let members = request_members(request);
                &&& members.len() == 3
                &&& members[2] == ("type"@, Tree::Text("rename_project"@))
                &&& members[1] == ("root"@, Tree::Text(root))
                &&& members[0].0 == "label"@
                &&& label matches Some(t) ==> members[0].1 == Tree::Text(t)
                &&& label is None ==> members[0].1 == Tree::Null
            },
            Asked::GitStatus { path } => {
                let members = request_members(request);
                &&& members.len() == 2
                &&& members[1] == ("type"@, Tree::Text("git_status"@))
                &&& members[0] == ("path"@, Tree::Text(path))
            },
            Asked::CreateWorktree { project_root, branch } => {
                let members = request_members(request);
                &&& members.len() == 3
                &&& members[2] == ("type"@, Tree::Text("create_worktree"@))
                &&& members[1] == ("project_root"@, Tree::Text(project_root))
                &&& members[0] == ("branch"@, Tree::Text(branch))
            },
            Asked::AttachMultiplexerPane { multiplexer, side, terminal_id, no_focus } => {
                let members = request_members(request);
                &&& members.len() == 5
                &&& members[4] == ("type"@, Tree::Text("attach_multiplexer_pane"@))
                &&& members[0].0 == "multiplexer"@
                &&& multiplexer matches Some(t) ==> members[0].1 == Tree::Text(t)
                &&& multiplexer is None ==> members[0].1 == Tree::Null
                &&& members[2] == ("side"@, Tree::Text(side))
                &&& members[3] == ("terminal_id"@, Tree::Text(terminal_id))
                &&& members[1] == ("no_focus"@, Tree::Bool(no_focus))
            },
            Asked::CreateMultiplexerPane { multiplexer, side, workspace, no_focus } => {
                let members = request_members(request);
                &&& members.len() == 5
                &&& members[3] == ("type"@, Tree::Text("create_multiplexer_pane"@))
                &&& members[0].0 == "multiplexer"@
                &&& multiplexer matches Some(t) ==> members[0].1 == Tree::Text(t)
                &&& multiplexer is None ==> members[0].1 == Tree::Null
                &&& members[2].0 == "side"@
                &&& side matches Some(t) ==> members[2].1 == Tree::Text(t)
                &&& side is None ==> members[2].1 == Tree::Null
                &&& members[4].0 == "workspace"@
                &&& workspace matches Some(t) ==> members[4].1 == Tree::Text(t)
                &&& workspace is None ==> members[4].1 == Tree::Null
                &&& members[1] == ("no_focus"@, Tree::Bool(no_focus))
            },
            Asked::RunAction { action } => {
                let members = request_members(request);
                &&& members.len() == 2
                &&& members[1] == ("type"@, Tree::Text("run_action"@))
                &&& members[0] == ("action"@, Tree::Text(action))
            },
            Asked::ListProjects => request_members(request) == seq![("type"@, Tree::Text("list_projects"@))],
            Asked::ListSessions => request_members(request) == seq![("type"@, Tree::Text("list_sessions"@))],
            Asked::ListMultiplexerPanes => request_members(request) == seq![("type"@, Tree::Text("list_multiplexer_panes"@))],
        },
{
}

/// A request held by the program is the request it is seen as, part for part.
pub proof fn a_request_is_seen_as_it_is(request: IpcRequest)
    ensures
        match request {
            IpcRequest::SelectWorkspace { path } => {
                &&& request@ matches Asked::SelectWorkspace { path: seen_path }
                &&& path is None <==> seen_path is None
                &&& path is Some ==> seen_path == Some(path->0@)
            },
            IpcRequest::CreateSession { workspace } => {
                &&& request@ matches Asked::CreateSession { workspace: seen_workspace }
                &&& workspace is None <==> seen_workspace is None
                &&& workspace is Some ==> seen_workspace == Some(workspace->0@)
            },
            IpcRequest::CloseSession { session_id } => {
                &&& request@ matches Asked::CloseSession { session_id: seen_session_id }
                &&& seen_session_id == session_id
            },
            IpcRequest::SendText { session_id, text } => {
                &&& request@ matches Asked::SendText { session_id: seen_session_id, text: seen_text }
                &&& seen_session_id == session_id
                &&& seen_text == text@
            },
            IpcRequest::MoveSession { session_id, path } => {
                &&& request@ matches Asked::MoveSession { session_id: seen_session_id, path: seen_path }
                &&& seen_session_id == session_id
                &&& seen_path == path@
            },
            IpcRequest::ReadScreen { session_id, scrollback_lines } => {
                &&& request@ matches Asked::ReadScreen { session_id: seen_session_id, scrollback_lines: seen_scrollback_lines }
                &&& seen_session_id == session_id
                &&& seen_scrollback_lines == scrollback_lines
            },
            IpcRequest::ReadScratchpad { workspace } => {
                &&& request@ matches Asked::ReadScratchpad { workspace: seen_workspace }
                &&& workspace is None <==> seen_workspace is None
                &&& workspace is Some ==> seen_workspace == Some(workspace->0@)
            },
            IpcRequest::RefreshProject { root } => {
                &&& request@ matches Asked::RefreshProject { root: seen_root }
                &&& seen_root == root@
            },
            IpcRequest::AddProject { path } => {
                &&& request@ matches Asked::AddProject { path: seen_path }
                &&& seen_path == path@
            },
            IpcRequest::RemoveProject { root } => {
                &&& request@ matches Asked::RemoveProject { root: seen_root }
                &&& seen_root == root@
            },
            IpcRequest::RenameProject { root, label } => {
                &&& request@ matches Asked::RenameProject { root: seen_root, label: seen_label }
                &&& seen_root == root@
                &&& label is None <==> seen_label is None
                &&& label is Some ==> seen_label == Some(label->0@)
            },
            IpcRequest::GitStatus { path } => {
                &&& request@ matches Asked::GitStatus { path: seen_path }
                &&& seen_path == path@
            },
            IpcRequest::CreateWorktree { project_root, branch } => {
                &&& request@ matches Asked::CreateWorktree { project_root: seen_project_root, branch: seen_branch }
                &&& seen_project_root == project_root@
                &&& seen_branch == branch@
            },
            IpcRequest::AttachMultiplexerPane { multiplexer, side, terminal_id, no_focus } => {
                &&& request@ matches Asked::AttachMultiplexerPane { multiplexer: seen_multiplexer, side: seen_side, terminal_id: seen_terminal_id, no_focus: seen_no_focus }
                &&& multiplexer is None <==> seen_multiplexer is None
                &&& multiplexer is Some ==> seen_multiplexer == Some(multiplexer->0@)
                &&& seen_side == side@
                &&& seen_terminal_id == terminal_id@
                &&& seen_no_focus == no_focus
            },
            IpcRequest::CreateMultiplexerPane { multiplexer, side, workspace, no_focus } => {
                &&& request@ matches Asked::CreateMultiplexerPane { multiplexer: seen_multiplexer, side: seen_side, workspace: seen_workspace, no_focus: seen_no_focus }
                &&& multiplexer is None <==> seen_multiplexer is None
                &&& multiplexer is Some ==> seen_multiplexer == Some(multiplexer->0@)
                &&& side is None <==> seen_side is None
                &&& side is Some ==> seen_side == Some(side->0@)
                &&& workspace is None <==> seen_workspace is None
                &&& workspace is Some ==> seen_workspace == Some(workspace->0@)
                &&& seen_no_focus == no_focus
            },
            IpcRequest::RunAction { action } => {
                &&& request@ matches Asked::RunAction { action: seen_action }
                &&& seen_action == action@
            },
            IpcRequest::ListProjects => request@ == Asked::ListProjects,
            IpcRequest::ListSessions => request@ == Asked::ListSessions,
            IpcRequest::ListMultiplexerPanes => request@ == Asked::ListMultiplexerPanes,
        },
{
}

/// A request is logged under the name of its kind.
pub proof fn a_request_is_named_by_its_kind(request: Asked)
    ensures
        request is SelectWorkspace ==> request_name(request) == "SelectWorkspace"@,
        request is CreateSession ==> request_name(request) == "CreateSession"@,
        request is CloseSession ==> request_name(request) == "CloseSession"@,
        request is SendText ==> request_name(request) == "SendText"@,
        request is MoveSession ==> request_name(request) == "MoveSession"@,
        request is ReadScreen ==> request_name(request) == "ReadScreen"@,
        request is ReadScratchpad ==> request_name(request) == "ReadScratchpad"@,
        request is RefreshProject ==> request_name(request) == "RefreshProject"@,
        request is AddProject ==> request_name(request) == "AddProject"@,
        request is RemoveProject ==> request_name(request) == "RemoveProject"@,
        request is RenameProject ==> request_name(request) == "RenameProject"@,
        request is GitStatus ==> request_name(request) == "GitStatus"@,
        request is CreateWorktree ==> request_name(request) == "CreateWorktree"@,
        request is AttachMultiplexerPane ==> request_name(request) == "AttachMultiplexerPane"@,
        request is CreateMultiplexerPane ==> request_name(request) == "CreateMultiplexerPane"@,
        request is RunAction ==> request_name(request) == "RunAction"@,
        request is ListProjects ==> request_name(request) == "ListProjects"@,
        request is ListSessions ==> request_name(request) == "ListSessions"@,
        request is ListMultiplexerPanes ==> request_name(request) == "ListMultiplexerPanes"@,
{
}

} // verus!

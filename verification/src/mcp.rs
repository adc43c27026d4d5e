//! A Model Context Protocol server over standard input and output.
//!
//! Bridges tool calls to a running app, so a model can look at projects and
//! worktrees, drive terminal sessions and read their output.  The transport is
//! newline-delimited JSON-RPC 2.0.

use vstd::prelude::*;

use crate::ipc::request::IpcRequest;
#[allow(unused_imports)]
use crate::ipc::request::{asked, request_in, tags, tags_differ, Asked};
use crate::json;
use crate::json::{array, object, Json};
#[allow(unused_imports)]
use crate::json::{
    document_pretty, lookup, member, member_trees, opt_ref_tree, read_document, text_of, trees, Tree,
};
use crate::text::{blank, concat2, same};
#[allow(unused_imports)]
use crate::text::is_blank;

verus! {

/// The protocol version answered to a client that names none.
pub const DEFAULT_PROTOCOL: &'static str = "2025-06-18";

/// One argument of a tool.
pub struct Argument {
    pub name: &'static str,
    pub kind: &'static str,
    pub description: Option<&'static str>,
    pub required: bool,
}

/// One tool a client can call.
pub struct Tool {
    pub name: &'static str,
    pub description: &'static str,
    pub arguments: Vec<Argument>,
}

/// An argument, viewed.
pub struct ArgumentView {
    pub name: Seq<char>,
    pub kind: Seq<char>,
    pub description: Option<Seq<char>>,
    pub required: bool,
}

/// A tool, viewed.
pub struct ToolView {
    pub name: Seq<char>,
    pub description: Seq<char>,
    pub arguments: Seq<ArgumentView>,
}

impl View for Argument {
    type V = ArgumentView;

    open spec fn view(&self) -> ArgumentView {
        ArgumentView {
            name: self.name@,
            kind: self.kind@,
            description: match self.description {
                Some(d) => Some(d@),
                None => None,
            },
            required: self.required,
        }
    }
}

impl View for Tool {
    type V = ToolView;

    open spec fn view(&self) -> ToolView {
        ToolView {
            name: self.name@,
            description: self.description@,
            arguments: self.arguments@.map_values(|a: Argument| a@),
        }
    }
}

/// What `list_projects` does, for the model that calls it.
pub const LIST_PROJECTS_TEXT: &'static str = "List the projects in alacritree's sidebar, each with its git worktrees (name, path, branch) and default branch. Also reports which workspace is currently focused. Worktree paths from here are what the other tools accept.";

/// What `list_sessions` does, for the model that calls it.
pub const LIST_SESSIONS_TEXT: &'static str = "List terminal sessions across all workspaces: id, title, workspace path (null = the home workspace), kind (shell or diff pane), grid size, whether it is its workspace's active tab, and whether it flagged for attention (bell / agent finished).";

/// What `select_workspace` does, for the model that calls it.
pub const SELECT_WORKSPACE_TEXT: &'static str = "Focus a workspace in the alacritree window, like clicking it in the sidebar. Pass a worktree path from list_projects, or omit path for the home workspace.";

/// What `create_session` does, for the model that calls it.
pub const CREATE_SESSION_TEXT: &'static str = "Open a new terminal (shell) session and return its id. workspace must be a worktree path known to the sidebar; omit it for the home workspace. The session becomes its workspace's active tab.";

/// What `close_session` does, for the model that calls it.
pub const CLOSE_SESSION_TEXT: &'static str = "Close a terminal session, terminating whatever is running in it.";

/// What `send_text` does, for the model that calls it.
pub const SEND_TEXT_TEXT: &'static str = "Write text to a session's terminal exactly as if typed. Control characters pass through (\"\\u0003\" is Ctrl-C); end with \"\\r\" to submit a shell command line. Use read_screen afterwards to see the result.";

/// What `read_screen` does, for the model that calls it.
pub const READ_SCREEN_TEXT: &'static str = "Read a session's terminal contents as lines of text (top to bottom), plus the cursor position (as indices into those lines) and the window title. scrollback_lines prepends up to that many history lines above the visible screen.";

/// What `git_status` does, for the model that calls it.
pub const GIT_STATUS_TEXT: &'static str = "Git status for a worktree path: current branch, staged and unstaged files, and per-file +/- line counts against the merge base with the default branch (what alacritree's git sidebar shows).";

/// What `create_worktree` does, for the model that calls it.
pub const CREATE_WORKTREE_TEXT: &'static str = "Create a new git worktree with a new branch in a project, like the sidebar's + button: fetches origin, branches from the project's default branch, and copies LLM config files into the new worktree. Slow — waits on git fetch.";

/// What `refresh_project` does, for the model that calls it.
pub const REFRESH_PROJECT_TEXT: &'static str = "Re-scan a project's worktrees and default branch (after changing worktrees outside alacritree).";

/// Every tool, in the order a client is told of them.
pub open spec fn tools() -> Seq<ToolView> {
    seq![
        ToolView {
            name: "list_projects"@,
            description: LIST_PROJECTS_TEXT@,
            arguments: seq![],
        },
        ToolView {
            name: "list_sessions"@,
            description: LIST_SESSIONS_TEXT@,
            arguments: seq![],
        },
        ToolView {
            name: "select_workspace"@,
            description: SELECT_WORKSPACE_TEXT@,
            arguments: seq![
                ArgumentView { name: "path"@, kind: "string"@, description: Some("Worktree path; omit for the home workspace."@), required: false },
            ],
        },
        ToolView {
            name: "create_session"@,
            description: CREATE_SESSION_TEXT@,
            arguments: seq![
                ArgumentView { name: "workspace"@, kind: "string"@, description: Some("Worktree path; omit for the home workspace."@), required: false },
            ],
        },
        ToolView {
            name: "close_session"@,
            description: CLOSE_SESSION_TEXT@,
            arguments: seq![
                ArgumentView { name: "session_id"@, kind: "integer"@, description: None, required: true },
            ],
        },
        ToolView {
            name: "send_text"@,
            description: SEND_TEXT_TEXT@,
            arguments: seq![
                ArgumentView { name: "session_id"@, kind: "integer"@, description: None, required: true },
                ArgumentView { name: "text"@, kind: "string"@, description: None, required: true },
            ],
        },
        ToolView {
            name: "read_screen"@,
            description: READ_SCREEN_TEXT@,
            arguments: seq![
                ArgumentView { name: "session_id"@, kind: "integer"@, description: None, required: true },
                ArgumentView { name: "scrollback_lines"@, kind: "integer"@, description: Some("History lines to include above the visible screen (default 0)."@), required: false },
            ],
        },
        ToolView {
            name: "git_status"@,
            description: GIT_STATUS_TEXT@,
            arguments: seq![
                ArgumentView { name: "path"@, kind: "string"@, description: Some("Worktree (or repository) path."@), required: true },
            ],
        },
        ToolView {
            name: "create_worktree"@,
            description: CREATE_WORKTREE_TEXT@,
            arguments: seq![
                ArgumentView { name: "project_root"@, kind: "string"@, description: Some("Project root path from list_projects."@), required: true },
                ArgumentView { name: "branch"@, kind: "string"@, description: Some("New branch name (also names the worktree directory)."@), required: true },
            ],
        },
        ToolView {
            name: "refresh_project"@,
            description: REFRESH_PROJECT_TEXT@,
            arguments: seq![
                ArgumentView { name: "root"@, kind: "string"@, description: Some("Project root path from list_projects."@), required: true },
            ],
        },
    ]
}

/// Every tool, in the order a client is told of them.
pub fn tool_list() -> (r: Vec<Tool>)
    ensures
        r@.map_values(|t: Tool| t@) == tools(),
{
    let mut r: Vec<Tool> = Vec::new();
    let mut arguments: Vec<Argument> = Vec::new();
    assert(arguments@.map_values(|a: Argument| a@) =~= tools()[0].arguments);
    r.push(Tool { name: "list_projects", description: LIST_PROJECTS_TEXT, arguments });
    let mut arguments: Vec<Argument> = Vec::new();
    assert(arguments@.map_values(|a: Argument| a@) =~= tools()[1].arguments);
    r.push(Tool { name: "list_sessions", description: LIST_SESSIONS_TEXT, arguments });
    let mut arguments: Vec<Argument> = Vec::new();
    arguments.push(Argument { name: "path", kind: "string", description: Some("Worktree path; omit for the home workspace."), required: false });
    assert(arguments@.map_values(|a: Argument| a@) =~= tools()[2].arguments);
    r.push(Tool { name: "select_workspace", description: SELECT_WORKSPACE_TEXT, arguments });
    let mut arguments: Vec<Argument> = Vec::new();
    arguments.push(Argument { name: "workspace", kind: "string", description: Some("Worktree path; omit for the home workspace."), required: false });
    assert(arguments@.map_values(|a: Argument| a@) =~= tools()[3].arguments);
    r.push(Tool { name: "create_session", description: CREATE_SESSION_TEXT, arguments });
    let mut arguments: Vec<Argument> = Vec::new();
    arguments.push(Argument { name: "session_id", kind: "integer", description: None, required: true });
    assert(arguments@.map_values(|a: Argument| a@) =~= tools()[4].arguments);
    r.push(Tool { name: "close_session", description: CLOSE_SESSION_TEXT, arguments });
    let mut arguments: Vec<Argument> = Vec::new();
    arguments.push(Argument { name: "session_id", kind: "integer", description: None, required: true });
    arguments.push(Argument { name: "text", kind: "string", description: None, required: true });
    assert(arguments@.map_values(|a: Argument| a@) =~= tools()[5].arguments);
    r.push(Tool { name: "send_text", description: SEND_TEXT_TEXT, arguments });
    let mut arguments: Vec<Argument> = Vec::new();
    arguments.push(Argument { name: "session_id", kind: "integer", description: None, required: true });
    arguments.push(Argument { name: "scrollback_lines", kind: "integer", description: Some("History lines to include above the visible screen (default 0)."), required: false });
    assert(arguments@.map_values(|a: Argument| a@) =~= tools()[6].arguments);
    r.push(Tool { name: "read_screen", description: READ_SCREEN_TEXT, arguments });
    let mut arguments: Vec<Argument> = Vec::new();
    arguments.push(Argument { name: "path", kind: "string", description: Some("Worktree (or repository) path."), required: true });
    assert(arguments@.map_values(|a: Argument| a@) =~= tools()[7].arguments);
    r.push(Tool { name: "git_status", description: GIT_STATUS_TEXT, arguments });
    let mut arguments: Vec<Argument> = Vec::new();
    arguments.push(Argument { name: "project_root", kind: "string", description: Some("Project root path from list_projects."), required: true });
    arguments.push(Argument { name: "branch", kind: "string", description: Some("New branch name (also names the worktree directory)."), required: true });
    assert(arguments@.map_values(|a: Argument| a@) =~= tools()[8].arguments);
    r.push(Tool { name: "create_worktree", description: CREATE_WORKTREE_TEXT, arguments });
    let mut arguments: Vec<Argument> = Vec::new();
    arguments.push(Argument { name: "root", kind: "string", description: Some("Project root path from list_projects."), required: true });
    assert(arguments@.map_values(|a: Argument| a@) =~= tools()[9].arguments);
    r.push(Tool { name: "refresh_project", description: REFRESH_PROJECT_TEXT, arguments });
    assert(r@.map_values(|t: Tool| t@) =~= tools());
    r
}

/// A text value where there is one.
pub open spec fn described(kind: Seq<char>, description: Option<Seq<char>>) -> Tree {
    match description {
        Some(d) => Tree::Object(seq![("type"@, Tree::Text(kind)), ("description"@, Tree::Text(d))]),
        None => Tree::Object(seq![("type"@, Tree::Text(kind))]),
    }
}

/// The names of the arguments that must be given.
pub open spec fn required_names(arguments: Seq<ArgumentView>) -> Seq<Tree>
    decreases arguments.len(),
{
    if arguments.len() == 0 {
        Seq::empty()
    } else {
        let front = required_names(arguments.drop_last());
        if arguments.last().required {
            front.push(Tree::Text(arguments.last().name))
        } else {
            front
        }
    }
}

/// The arguments by name.
pub open spec fn properties(arguments: Seq<ArgumentView>) -> Seq<(Seq<char>, Tree)> {
    arguments.map_values(|a: ArgumentView| (a.name, described(a.kind, a.description)))
}

/// The shape of a tool's arguments.  Where none must be given, nothing is said
/// of that.
pub open spec fn schema_tree(arguments: Seq<ArgumentView>) -> Tree {
    let base = seq![("type"@, Tree::Text("object"@)), ("properties"@, Tree::Object(properties(arguments)))];
    if required_names(arguments).len() > 0 {
        Tree::Object(base.push(("required"@, Tree::Array(required_names(arguments)))))
    } else {
        Tree::Object(base)
    }
}

/// What a client is told of a tool.
pub open spec fn tool_tree(tool: ToolView) -> Tree {
    Tree::Object(
        seq![
            ("name"@, Tree::Text(tool.name)),
            ("description"@, Tree::Text(tool.description)),
            ("inputSchema"@, schema_tree(tool.arguments)),
        ],
    )
}

fn schema_json(tool: &Tool) -> (r: Json)
    ensures
        r@ == schema_tree(tool@.arguments),
{
    let ghost all = tool@.arguments;
    let mut props: Vec<(String, Json)> = Vec::new();
    let mut required: Vec<Json> = Vec::new();
    let mut i: usize = 0;
    proof {
        assert(all.take(0) =~= Seq::<ArgumentView>::empty());
        assert(trees(required@) =~= Seq::empty());
    }
    while i < tool.arguments.len()
        invariant
            i <= tool.arguments@.len(),
            all == tool@.arguments,
            props@.len() == i,
            forall|k: int|
                0 <= k < i ==> (#[trigger] props@[k]).0@ == all[k].name && props@[k].1@ == described(
                    all[k].kind,
                    all[k].description,
                ),
            trees(required@) == required_names(all.take(i as int)),
        decreases tool.arguments@.len() - i,
    {
        let a = &tool.arguments[i];
        assert(all[i as int] == a@);
        assert(all.take(i + 1).drop_last() =~= all.take(i as int));
        assert(all.take(i + 1).last() == a@);
        let mut members: Vec<(String, Json)> = Vec::new();
        members.push(("type".to_owned(), json::text(a.kind)));
        if let Some(d) = a.description {
            members.push(("description".to_owned(), json::text(d)));
        }
        assert(member_trees(members@) =~= described(a@.kind, a@.description)->Object_0);
        props.push((a.name.to_owned(), object(members)));
        if a.required {
            let ghost before = required@;
            required.push(json::text(a.name));
            assert(trees(required@) =~= trees(before).push(Tree::Text(a.name@)));
        }
        i += 1;
    }
    assert(all.take(all.len() as int) =~= all);
    assert(member_trees(props@) =~= properties(all));
    assert(trees(required@).len() == required@.len());
    let ghost wanted = required_names(all);
    let mut members: Vec<(String, Json)> = Vec::new();
    members.push(("type".to_owned(), json::text("object")));
    members.push(("properties".to_owned(), object(props)));
    if required.len() > 0 {
        members.push(("required".to_owned(), array(required)));
    }
    assert(member_trees(members@) =~= schema_tree(all)->Object_0);
    object(members)
}

fn tool_json(tool: &Tool) -> (r: Json)
    ensures
        r@ == tool_tree(tool@),
{
    let mut members: Vec<(String, Json)> = Vec::new();
    members.push(("name".to_owned(), json::text(tool.name)));
    members.push(("description".to_owned(), json::text(tool.description)));
    members.push(("inputSchema".to_owned(), schema_json(tool)));
    assert(member_trees(members@) =~= tool_tree(tool@)->Object_0);
    object(members)
}

/// What a client is told of every tool.
pub open spec fn definitions() -> Tree {
    Tree::Array(tools().map_values(|t: ToolView| tool_tree(t)))
}

/// What a client is told of every tool.
pub fn tool_definitions() -> (r: Json)
    ensures
        r@ == definitions(),
{
    let list = tool_list();
    let mut items: Vec<Json> = Vec::new();
    let mut i: usize = 0;
    assert(list@.map_values(|t: Tool| t@).len() == list@.len());
    while i < list.len()
        invariant
            i <= list@.len(),
            list@.len() == tools().len(),
            list@.map_values(|t: Tool| t@) == tools(),
            items@.len() == i,
            forall|k: int| 0 <= k < i ==> (#[trigger] items@[k])@ == tool_tree(tools()[k]),
        decreases list@.len() - i,
    {
        assert(list@.map_values(|t: Tool| t@)[i as int] == list@[i as int]@);
        items.push(tool_json(&list[i]));
        i += 1;
    }
    assert(trees(items@) =~= tools().map_values(|t: ToolView| tool_tree(t)));
    array(items)
}

/// A successful response.
pub open spec fn result_tree(id: Tree, result: Tree) -> Tree {
    Tree::Object(seq![("jsonrpc"@, Tree::Text("2.0"@)), ("id"@, id), ("result"@, result)])
}

/// A successful response.
pub fn result_response(id: Json, result: Json) -> (r: Json)
    ensures
        r@ == result_tree(id@, result@),
{
    let ghost (i, v) = (id@, result@);
    let mut members: Vec<(String, Json)> = Vec::new();
    members.push(("jsonrpc".to_owned(), json::text("2.0")));
    members.push(("id".to_owned(), id));
    members.push(("result".to_owned(), result));
    assert(member_trees(members@) =~= result_tree(i, v)->Object_0);
    object(members)
}

/// A protocol error.
pub open spec fn error_tree(id: Tree, code: int, message: Seq<char>) -> Tree {
    Tree::Object(
        seq![
            ("jsonrpc"@, Tree::Text("2.0"@)),
            ("id"@, id),
            (
                "error"@,
                Tree::Object(seq![("code"@, Tree::Signed(code as i64)), ("message"@, Tree::Text(message))]),
            ),
        ],
    )
}

/// A protocol error.
pub fn error_response(id: Json, code: i64, message: &str) -> (r: Json)
    ensures
        r@ == error_tree(id@, code as int, message@),
{
    let ghost i = id@;
    let mut error: Vec<(String, Json)> = Vec::new();
    error.push(("code".to_owned(), Json::Signed(code)));
    error.push(("message".to_owned(), json::text(message)));
    assert(member_trees(error@) =~= seq![("code"@, Tree::Signed(code)), ("message"@, Tree::Text(message@))]);
    let mut members: Vec<(String, Json)> = Vec::new();
    members.push(("jsonrpc".to_owned(), json::text("2.0")));
    members.push(("id".to_owned(), id));
    members.push(("error".to_owned(), object(error)));
    assert(member_trees(members@) =~= error_tree(i, code as int, message@)->Object_0);
    object(members)
}

/// A member of a value that may not be there.
pub open spec fn inner(tree: Option<Tree>, name: Seq<char>) -> Option<Tree> {
    match tree {
        Some(tree) => member(tree, name),
        None => None,
    }
}

/// What the server says of itself.
pub open spec fn greeting(params: Option<Tree>, version: Seq<char>) -> Tree {
    Tree::Object(
        seq![
            (
                "protocolVersion"@,
                Tree::Text(
                    match text_of(inner(params, "protocolVersion"@)) {
                        Some(v) => v,
                        None => DEFAULT_PROTOCOL@,
                    },
                ),
            ),
            ("capabilities"@, Tree::Object(seq![("tools"@, Tree::Object(seq![]))])),
            (
                "serverInfo"@,
                Tree::Object(seq![("name"@, Tree::Text("alacritree"@)), ("version"@, Tree::Text(version))]),
            ),
        ],
    )
}

/// What the server says of itself.  The client's protocol version is echoed:
/// only tools are used, which every revision to date supports.
pub fn initialize_result(params: Option<&Json>, version: &str) -> (r: Json)
    ensures
        r@ == greeting(opt_ref_tree(params), version@),
{
    let asked = match params {
        Some(p) => p.text_at("protocolVersion"),
        None => None,
    };
    let protocol = match asked {
        Some(v) => v,
        None => DEFAULT_PROTOCOL.to_owned(),
    };
    let none: Vec<(String, Json)> = Vec::new();
    assert(member_trees(none@) =~= seq![]);
    let mut capabilities: Vec<(String, Json)> = Vec::new();
    capabilities.push(("tools".to_owned(), object(none)));
    assert(member_trees(capabilities@) =~= seq![("tools"@, Tree::Object(seq![]))]);
    let mut info: Vec<(String, Json)> = Vec::new();
    info.push(("name".to_owned(), json::text("alacritree")));
    info.push(("version".to_owned(), json::text(version)));
    assert(member_trees(info@) =~= seq![("name"@, Tree::Text("alacritree"@)), ("version"@, Tree::Text(version@))]);
    let mut members: Vec<(String, Json)> = Vec::new();
    members.push(("protocolVersion".to_owned(), json::text(&protocol)));
    members.push(("capabilities".to_owned(), object(capabilities)));
    members.push(("serverInfo".to_owned(), object(info)));
    assert(member_trees(members@) =~= greeting(opt_ref_tree(params), version@)->Object_0);
    object(members)
}

/// The arguments of a call with the tool's name under `type`: a tool's name
/// is the name its request has on the wire.
pub open spec fn tagged(params: Option<Tree>) -> Tree {
    let name = match text_of(inner(params, "name"@)) {
        Some(name) => name,
        None => Seq::empty(),
    };
    let arguments = match inner(params, "arguments"@) {
        Some(Tree::Object(members)) => members,
        _ => Seq::empty(),
    };
    Tree::Object(seq![("type"@, Tree::Text(name))] + untagged(arguments))
}

/// The members without a `type`, whose place the tool's name takes.
pub open spec fn untagged(members: Seq<(Seq<char>, Tree)>) -> Seq<(Seq<char>, Tree)> {
    members.filter(|m: (Seq<char>, Tree)| m.0 != "type"@)
}

fn tagged_json(params: Option<&Json>) -> (r: Json)
    ensures
        r@ == tagged(opt_ref_tree(params)),
{
    let (name, arguments) = match params {
        Some(p) => (p.text_at("name"), p.get("arguments")),
        None => (None, None),
    };
    let name = match name {
        Some(name) => name,
        None => String::new(),
    };
    let mut members: Vec<(String, Json)> = Vec::new();
    members.push(("type".to_owned(), json::text(&name)));
    let ghost first = member_trees(members@);
    let ghost keep = |m: (Seq<char>, Tree)| m.0 != "type"@;
    let ghost none = Seq::<(Seq<char>, Tree)>::empty();
    proof {
        reveal(Seq::filter);
        assert(none.filter(keep) =~= none);
        assert(first + none =~= first);
    }
    if let Some(Json::Object(given)) = arguments {
        let ghost rest = (arguments->0)@->Object_0;
        let mut i: usize = 0;
        proof {
            assert(rest.take(0) =~= none);
        }
        while i < given.len()
            invariant
                i <= given@.len(),
                given@.len() == rest.len(),
                keep == (|m: (Seq<char>, Tree)| m.0 != "type"@),
                forall|k: int| 0 <= k < given@.len() ==> #[trigger] rest[k] == (given@[k].0@, given@[k].1@),
                member_trees(members@) == first + rest.take(i as int).filter(keep),
            decreases given@.len() - i,
        {
            let ghost before = members@;
            let ghost kept = rest.take(i as int).filter(keep);
            proof {
                reveal(Seq::filter);
                assert(rest[i as int] == (given@[i as int].0@, given@[i as int].1@));
                assert(rest.take(i + 1).drop_last() =~= rest.take(i as int));
                assert(rest.take(i + 1).last() == rest[i as int]);
            }
            if !same(&given[i].0, "type") {
                members.push((given[i].0.clone(), given[i].1.copy()));
                proof {
                    assert(member_trees(members@) =~= member_trees(before).push(rest[i as int]));
                    assert(first + kept.push(rest[i as int]) =~= (first + kept).push(rest[i as int]));
                }
            }
            i += 1;
        }
        assert(rest.take(rest.len() as int) =~= rest);
    }
    assert(member_trees(members@) =~= tagged(opt_ref_tree(params))->Object_0);
    object(members)
}

/// How long a request's reply is waited for, in milliseconds: a create runs
/// `git fetch` against origin, and a status walks the working tree.
pub open spec fn patience(request: Asked) -> u64 {
    match request {
        Asked::CreateWorktree { .. } => 300_000,
        Asked::GitStatus { .. } => 60_000,
        _ => 15_000,
    }
}

/// How long a request's reply is waited for, in milliseconds.
pub fn timeout_for(request: &IpcRequest) -> (r: u64)
    ensures
        r == patience(request@),
{
    match request {
        IpcRequest::CreateWorktree { .. } => 300_000,
        IpcRequest::GitStatus { .. } => 60_000,
        _ => 15_000,
    }
}

/// What a line from the client calls for.
#[derive(Debug, PartialEq, Eq)]
pub enum Step {
    /// Nothing: the line is blank, or a notification, which is not answered.
    Nothing,
    /// Send this.
    Reply(Json),
    /// Send the request to the app, wait that many milliseconds, and answer
    /// under the id.
    Call { id: Json, request: IpcRequest, timeout: u64 },
    /// Answer under the id that the call is no request, with what is wrong
    /// with it: see [`invalid_call`].
    Refuse { id: Json, call: Json },
}

/// A step, viewed.
pub enum StepView {
    Nothing,
    Reply(Tree),
    Call { id: Tree, request: Asked, timeout: u64 },
    Refuse { id: Tree, call: Tree },
}

impl View for Step {
    type V = StepView;

    open spec fn view(&self) -> StepView {
        match self {
            Step::Nothing => StepView::Nothing,
            Step::Reply(json) => StepView::Reply(json@),
            Step::Call { id, request, timeout } => StepView::Call {
                id: id@,
                request: request@,
                timeout: *timeout,
            },
            Step::Refuse { id, call } => StepView::Refuse { id: id@, call: call@ },
        }
    }
}

/// What a message calls for.
pub open spec fn message_step(message: Tree, version: Seq<char>) -> StepView {
    let params = member(message, "params"@);
    let method = match text_of(member(message, "method"@)) {
        Some(method) => method,
        None => Seq::empty(),
    };
    match member(message, "id"@) {
        None => StepView::Nothing,
        Some(id) => if method == "initialize"@ {
            StepView::Reply(result_tree(id, greeting(params, version)))
        } else if method == "ping"@ {
            StepView::Reply(result_tree(id, Tree::Object(seq![])))
        } else if method == "tools/list"@ {
            StepView::Reply(result_tree(id, Tree::Object(seq![("tools"@, definitions())])))
        } else if method == "tools/call"@ {
            match request_in(tagged(params)) {
                Some(request) => StepView::Call { id, request, timeout: patience(request) },
                None => StepView::Refuse { id, call: tagged(params) },
            }
        } else {
            StepView::Reply(error_tree(id, -32601, "method not found: "@ + method))
        },
    }
}

/// What a line calls for.
pub open spec fn line_step(line: Seq<char>, version: Seq<char>) -> StepView {
    if is_blank(line) {
        StepView::Nothing
    } else {
        match read_document(line) {
            Err(message) => StepView::Reply(error_tree(Tree::Null, -32700, "parse error: "@ + message)),
            Ok(tree) => message_step(tree, version),
        }
    }
}

/// Takes a message whose document has been read.
pub fn take_message(message: &Json, version: &str) -> (r: Step)
    ensures
        r@ == message_step(message@, version@),
{
    // Requests without an id are notifications and must not be answered.
    let id = match message.get("id") {
        Some(id) => id.copy(),
        None => {
            return Step::Nothing;
        },
    };
    let method = match message.text_at("method") {
        Some(method) => method,
        None => String::new(),
    };
    let params = message.get("params");
    if same(&method, "initialize") {
        Step::Reply(result_response(id, initialize_result(params, version)))
    } else if same(&method, "ping") {
        let none: Vec<(String, Json)> = Vec::new();
        assert(member_trees(none@) =~= seq![]);
        Step::Reply(result_response(id, object(none)))
    } else if same(&method, "tools/list") {
        let mut members: Vec<(String, Json)> = Vec::new();
        members.push(("tools".to_owned(), tool_definitions()));
        assert(member_trees(members@) =~= seq![("tools"@, definitions())]);
        Step::Reply(result_response(id, object(members)))
    } else if same(&method, "tools/call") {
        let call = tagged_json(params);
        match IpcRequest::read(&call) {
            Some(request) => {
                let timeout = timeout_for(&request);
                Step::Call { id, request, timeout }
            },
            None => Step::Refuse { id, call },
        }
    } else {
        Step::Reply(error_response(id, -32601, concat2("method not found: ", &method).as_str()))
    }
}

/// Takes a line from the client.
pub fn take_line(line: &str, version: &str) -> (r: Step)
    ensures
        r@ == line_step(line@, version@),
{
    if blank(line) {
        return Step::Nothing;
    }
    match Json::read(line) {
        Err(message) => Step::Reply(
            error_response(Json::Null, -32700, concat2("parse error: ", message.as_str()).as_str()),
        ),
        Ok(json) => take_message(&json, version),
    }
}

/// What a call that is no request is answered.  What is wrong with it is
/// `words`, as the reader of the wire's own type puts it.
pub fn invalid_call(id: Json, words: &str) -> (r: Json)
    ensures
        r@ == error_tree(id@, -32602, "invalid tool call: "@ + words@),
{
    error_response(id, -32602, concat2("invalid tool call: ", words).as_str())
}

/// The content of a tool's answer.
pub open spec fn content_tree(text: Seq<char>) -> Tree {
    Tree::Array(seq![Tree::Object(seq![("type"@, Tree::Text("text"@)), ("text"@, Tree::Text(text))])])
}

/// What a tool call is answered.  A failure of the tool is no protocol error:
/// the model should see the message and adapt.
pub open spec fn call_tree(id: Tree, outcome: Result<Tree, Seq<char>>) -> Tree {
    match outcome {
        Ok(value) => result_tree(id, Tree::Object(seq![("content"@, content_tree(document_pretty(value)))])),
        Err(message) => result_tree(
            id,
            Tree::Object(seq![("content"@, content_tree(message)), ("isError"@, Tree::Bool(true))]),
        ),
    }
}

fn content_json(text: &str) -> (r: Json)
    ensures
        r@ == content_tree(text@),
{
    let mut members: Vec<(String, Json)> = Vec::new();
    members.push(("type".to_owned(), json::text("text")));
    members.push(("text".to_owned(), json::text(text)));
    assert(member_trees(members@) =~= seq![("type"@, Tree::Text("text"@)), ("text"@, Tree::Text(text@))]);
    let mut items: Vec<Json> = Vec::new();
    items.push(object(members));
    assert(trees(items@) =~= content_tree(text@)->Array_0);
    array(items)
}

/// What a tool call is answered.
pub fn tool_call_response(id: Json, outcome: Result<Json, String>) -> (r: Json)
    ensures
        r@ == call_tree(
            id@,
            match outcome {
                Ok(value) => Ok(value@),
                Err(message) => Err(message@),
            },
        ),
{
    let mut members: Vec<(String, Json)> = Vec::new();
    match outcome {
        Ok(value) => {
            members.push(("content".to_owned(), content_json(value.pretty().as_str())));
            assert(member_trees(members@) =~= seq![("content"@, content_tree(document_pretty(value@)))]);
        },
        Err(message) => {
            members.push(("content".to_owned(), content_json(&message)));
            members.push(("isError".to_owned(), Json::Bool(true)));
            assert(member_trees(members@) =~= seq![
                ("content"@, content_tree(message@)),
                ("isError"@, Tree::Bool(true)),
            ]);
        },
    }
    result_response(id, object(members))
}

/// A notification, which carries no id, is never answered, whatever it says.
pub proof fn a_notification_is_not_answered(message: Tree, version: Seq<char>)
    requires
        member(message, "id"@) is None,
    ensures
        message_step(message, version) == StepView::Nothing,
{
}

/// Every message with an id is answered under that id.
pub proof fn an_answer_carries_the_id(message: Tree, version: Seq<char>)
    requires
        member(message, "id"@) is Some,
    ensures
        match message_step(message, version) {
            StepView::Nothing => false,
            StepView::Reply(reply) => member(reply, "id"@) == member(message, "id"@),
            StepView::Call { id, .. } => Some(id) == member(message, "id"@),
            StepView::Refuse { id, .. } => Some(id) == member(message, "id"@),
        },
{
    reveal_strlit("id");
    reveal_strlit("jsonrpc");
    assert("id"@.len() != "jsonrpc"@.len());
    reveal_with_fuel(lookup, 3);
}

/// Every tool is named as the request it makes is on the wire, so that its
/// name and arguments are read straight as the request.
pub proof fn every_tool_names_a_request()
    ensures
        forall|i: int| 0 <= i < tools().len() ==> tags().contains((#[trigger] tools()[i]).name),
{
    tags_differ();
    let t = tools();
    assert(t[0].name == tags()[8]);
    assert(t[1].name == tags()[9]);
    assert(t[2].name == tags()[17]);
    assert(t[3].name == tags()[4]);
    assert(t[4].name == tags()[2]);
    assert(t[5].name == tags()[18]);
    assert(t[6].name == tags()[12]);
    assert(t[7].name == tags()[6]);
    assert(t[8].name == tags()[5]);
    assert(t[9].name == tags()[13]);
    assert forall|i: int| 0 <= i < t.len() implies tags().contains((#[trigger] t[i]).name) by {}
}

} // verus!

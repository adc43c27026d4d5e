//! What an agent is told of the tools, and what its calls come to.

use vstd::prelude::*;

#[allow(unused_imports)]
use crate::ipc::request::{request_in, tags_differ, Asked};
#[allow(unused_imports)]
use crate::ipc::request_laws::{given_count, given_or_left_out, given_size, given_text};
#[allow(unused_imports)]
use crate::json::{document_pretty, lookup, member, read_document, Tree};
#[allow(unused_imports)]
use crate::mcp::{
    call_tree, definitions, line_step, message_step, patience, required_names, tagged, tools, untagged,
    ArgumentView, StepView,
};
#[allow(unused_imports)]
use crate::text::is_blank;

verus! {

/// A message that calls the tool `name` with `arguments`, and waits for the
/// answer under `id`.
pub open spec fn calls(message: Tree, id: Tree, name: Seq<char>, arguments: Seq<(Seq<char>, Tree)>) -> bool {
    &&& member(message, "id"@) == Some(id)
    &&& member(message, "method"@) == Some(Tree::Text("tools/call"@))
    &&& member(message, "params"@) matches Some(params) && member(params, "name"@) == Some(Tree::Text(name))
        && member(params, "arguments"@) == Some(Tree::Object(arguments))
}

proof fn filter_from_the_front(members: Seq<(Seq<char>, Tree)>, keep: spec_fn((Seq<char>, Tree)) -> bool)
    requires
        members.len() > 0,
    ensures
        members.filter(keep) == if keep(members[0]) {
            seq![members[0]] + members.drop_first().filter(keep)
        } else {
            members.drop_first().filter(keep)
        },
    decreases members.len(),
{
    reveal(Seq::filter);
    let rest = members.drop_first();
    if members.len() == 1 {
        assert(members.drop_last() =~= Seq::empty());
        assert(rest =~= Seq::empty());
        assert(members.last() == members[0]);
        assert(members.drop_last().filter(keep) =~= Seq::empty());
        assert(seq![members[0]] + rest.filter(keep) =~= seq![members[0]]);
    } else {
        filter_from_the_front(members.drop_last(), keep);
        assert(members.drop_last().drop_first() =~= rest.drop_last());
        assert(rest.last() == members.last());
        let front = seq![members[0]] + rest.drop_last().filter(keep);
        assert(front.push(members.last()) =~= seq![members[0]] + rest.drop_last().filter(keep).push(members.last()));
    }
}

proof fn an_untagged_member_stays(members: Seq<(Seq<char>, Tree)>, name: Seq<char>)
    requires
        name != "type"@,
    ensures
        lookup(untagged(members), name) == lookup(members, name),
    decreases members.len(),
{
    reveal(Seq::filter);
    let keep = |m: (Seq<char>, Tree)| m.0 != "type"@;
    if members.len() > 0 {
        let rest = members.drop_first();
        an_untagged_member_stays(rest, name);
        filter_from_the_front(members, keep);
        if keep(members[0]) {
            let kept = seq![members[0]] + rest.filter(keep);
            assert(kept.drop_first() =~= rest.filter(keep));
        }
    }
}

/// A call reaches the request reader as a document that asks for the tool's
/// name and holds every other argument as it was given.
pub proof fn a_call_keeps_its_arguments(
    message: Tree,
    id: Tree,
    name: Seq<char>,
    arguments: Seq<(Seq<char>, Tree)>,
    argument: Seq<char>,
)
    requires
        calls(message, id, name, arguments),
        argument != "type"@,
    ensures
        member(tagged(member(message, "params"@)), "type"@) == Some(Tree::Text(name)),
        member(tagged(member(message, "params"@)), argument) == lookup(arguments, argument),
{
    an_untagged_member_stays(arguments, argument);
    let members = seq![("type"@, Tree::Text(name))] + untagged(arguments);
    assert(members.drop_first() =~= untagged(arguments));
    assert(members[0] == ("type"@, Tree::Text(name)));
}

proof fn a_call_is_no_other_method()
    ensures
        "tools/call"@ != "initialize"@,
        "tools/call"@ != "ping"@,
        "tools/call"@ != "tools/list"@,
        "tools/list"@ != "initialize"@,
        "tools/list"@ != "ping"@,
        "initialize"@ != "ping"@,
{
    reveal_strlit("tools/call");
    reveal_strlit("initialize");
    reveal_strlit("ping");
    reveal_strlit("tools/list");
    assert("tools/call"@[0] != "initialize"@[0]);
    assert("tools/call"@.len() != "ping"@.len());
    assert("tools/call"@[6] != "tools/list"@[6]);
    assert("tools/list"@[0] != "initialize"@[0]);
    assert("tools/list"@.len() != "ping"@.len());
    assert("initialize"@.len() != "ping"@.len());
}

proof fn no_argument_is_named_type()
    ensures
        "branch"@ != "type"@,
        "path"@ != "type"@,
        "project_root"@ != "type"@,
        "root"@ != "type"@,
        "scrollback_lines"@ != "type"@,
        "session_id"@ != "type"@,
        "text"@ != "type"@,
        "workspace"@ != "type"@,
{
    reveal_strlit("branch");
    reveal_strlit("type");
    reveal_strlit("path");
    reveal_strlit("project_root");
    reveal_strlit("root");
    reveal_strlit("scrollback_lines");
    reveal_strlit("session_id");
    reveal_strlit("text");
    reveal_strlit("workspace");
    assert("branch"@.len() != "type"@.len());
    assert("path"@[0] != "type"@[0]);
    assert("project_root"@.len() != "type"@.len());
    assert("root"@[0] != "type"@[0]);
    assert("scrollback_lines"@.len() != "type"@.len());
    assert("session_id"@.len() != "type"@.len());
    assert("text"@[1] != "type"@[1]);
    assert("workspace"@.len() != "type"@.len());
}

/// `list_projects` is advertised with no argument, and a call that
/// gives any is that request.
pub proof fn list_projects_is_a_tool(message: Tree, version: Seq<char>, id: Tree, arguments: Seq<(Seq<char>, Tree)>)
    requires
        calls(message, id, "list_projects"@, arguments),
    ensures
        tools()[0].name == "list_projects"@,
        tools()[0].arguments.len() == 0,
        message_step(message, version) == (StepView::Call { id, request: Asked::ListProjects, timeout: 15_000 }),
{
    tags_differ();
    a_call_is_no_other_method();
    no_argument_is_named_type();
    a_call_keeps_its_arguments(message, id, "list_projects"@, arguments, "path"@);
}

/// `list_sessions` is advertised with no argument, and a call that
/// gives any is that request.
pub proof fn list_sessions_is_a_tool(message: Tree, version: Seq<char>, id: Tree, arguments: Seq<(Seq<char>, Tree)>)
    requires
        calls(message, id, "list_sessions"@, arguments),
    ensures
        tools()[1].name == "list_sessions"@,
        tools()[1].arguments.len() == 0,
        message_step(message, version) == (StepView::Call { id, request: Asked::ListSessions, timeout: 15_000 }),
{
    tags_differ();
    a_call_is_no_other_method();
    no_argument_is_named_type();
    a_call_keeps_its_arguments(message, id, "list_sessions"@, arguments, "path"@);
}

/// `select_workspace` is advertised with the argument `path`, and a call that
/// gives it a value of its kind is that request, with these values and no others.
pub proof fn select_workspace_is_a_tool(message: Tree, version: Seq<char>, id: Tree, arguments: Seq<(Seq<char>, Tree)>, path: Option<Seq<char>>)
    requires
        calls(message, id, "select_workspace"@, arguments),
    ensures
        tools()[2].name == "select_workspace"@,
        tools()[2].arguments.len() == 1,
        tools()[2].arguments[0].name == "path"@,
        tools()[2].arguments[0].kind == "string"@,
        !tools()[2].arguments[0].required,
        message_step(message, version) == (StepView::Call {
            id,
            request: Asked::SelectWorkspace { path },
            timeout: 15_000,
        }) <==> {
            &&& given_or_left_out(lookup(arguments, "path"@), path)
        },
{
    tags_differ();
    a_call_is_no_other_method();
    no_argument_is_named_type();
    a_call_keeps_its_arguments(message, id, "select_workspace"@, arguments, "path"@);
}

/// `create_session` is advertised with the argument `workspace`, and a call that
/// gives it a value of its kind is that request, with these values and no others.
pub proof fn create_session_is_a_tool(message: Tree, version: Seq<char>, id: Tree, arguments: Seq<(Seq<char>, Tree)>, workspace: Option<Seq<char>>)
    requires
        calls(message, id, "create_session"@, arguments),
    ensures
        tools()[3].name == "create_session"@,
        tools()[3].arguments.len() == 1,
        tools()[3].arguments[0].name == "workspace"@,
        tools()[3].arguments[0].kind == "string"@,
        !tools()[3].arguments[0].required,
        message_step(message, version) == (StepView::Call {
            id,
            request: Asked::CreateSession { workspace },
            timeout: 15_000,
        }) <==> {
            &&& given_or_left_out(lookup(arguments, "workspace"@), workspace)
        },
{
    tags_differ();
    a_call_is_no_other_method();
    no_argument_is_named_type();
    a_call_keeps_its_arguments(message, id, "create_session"@, arguments, "workspace"@);
}

/// `close_session` is advertised with the argument `session_id`, and a call that
/// gives it a value of its kind is that request, with these values and no others.
pub proof fn close_session_is_a_tool(message: Tree, version: Seq<char>, id: Tree, arguments: Seq<(Seq<char>, Tree)>, session_id: u64)
    requires
        calls(message, id, "close_session"@, arguments),
    ensures
        tools()[4].name == "close_session"@,
        tools()[4].arguments.len() == 1,
        tools()[4].arguments[0].name == "session_id"@,
        tools()[4].arguments[0].kind == "integer"@,
        tools()[4].arguments[0].required,
        message_step(message, version) == (StepView::Call {
            id,
            request: Asked::CloseSession { session_id },
            timeout: 15_000,
        }) <==> {
            &&& given_count(lookup(arguments, "session_id"@), session_id)
        },
{
    tags_differ();
    a_call_is_no_other_method();
    no_argument_is_named_type();
    a_call_keeps_its_arguments(message, id, "close_session"@, arguments, "session_id"@);
}

/// `send_text` is advertised with the arguments `session_id` and `text`, and a call that
/// gives them values of their kinds is that request, with these values and no others.
pub proof fn send_text_is_a_tool(message: Tree, version: Seq<char>, id: Tree, arguments: Seq<(Seq<char>, Tree)>, session_id: u64, text: Seq<char>)
    requires
        calls(message, id, "send_text"@, arguments),
    ensures
        tools()[5].name == "send_text"@,
        tools()[5].arguments.len() == 2,
        tools()[5].arguments[0].name == "session_id"@,
        tools()[5].arguments[0].kind == "integer"@,
        tools()[5].arguments[0].required,
        tools()[5].arguments[1].name == "text"@,
        tools()[5].arguments[1].kind == "string"@,
        tools()[5].arguments[1].required,
        message_step(message, version) == (StepView::Call {
            id,
            request: Asked::SendText { session_id, text },
            timeout: 15_000,
        }) <==> {
            &&& given_count(lookup(arguments, "session_id"@), session_id)
            &&& given_text(lookup(arguments, "text"@), text)
        },
{
    tags_differ();
    a_call_is_no_other_method();
    no_argument_is_named_type();
    a_call_keeps_its_arguments(message, id, "send_text"@, arguments, "session_id"@);
    a_call_keeps_its_arguments(message, id, "send_text"@, arguments, "text"@);
}

/// `read_screen` is advertised with the arguments `session_id` and `scrollback_lines`, and a call that
/// gives them values of their kinds is that request, with these values and no others.
pub proof fn read_screen_is_a_tool(message: Tree, version: Seq<char>, id: Tree, arguments: Seq<(Seq<char>, Tree)>, session_id: u64, scrollback_lines: usize)
    requires
        calls(message, id, "read_screen"@, arguments),
    ensures
        tools()[6].name == "read_screen"@,
        tools()[6].arguments.len() == 2,
        tools()[6].arguments[0].name == "session_id"@,
        tools()[6].arguments[0].kind == "integer"@,
        tools()[6].arguments[0].required,
        tools()[6].arguments[1].name == "scrollback_lines"@,
        tools()[6].arguments[1].kind == "integer"@,
        !tools()[6].arguments[1].required,
        message_step(message, version) == (StepView::Call {
            id,
            request: Asked::ReadScreen { session_id, scrollback_lines },
            timeout: 15_000,
        }) <==> {
            &&& given_count(lookup(arguments, "session_id"@), session_id)
            &&& given_size(lookup(arguments, "scrollback_lines"@), scrollback_lines)
        },
{
    tags_differ();
    a_call_is_no_other_method();
    no_argument_is_named_type();
    a_call_keeps_its_arguments(message, id, "read_screen"@, arguments, "session_id"@);
    a_call_keeps_its_arguments(message, id, "read_screen"@, arguments, "scrollback_lines"@);
}

/// `git_status` is advertised with the argument `path`, and a call that
/// gives it a value of its kind is that request, with these values and no others.
pub proof fn git_status_is_a_tool(message: Tree, version: Seq<char>, id: Tree, arguments: Seq<(Seq<char>, Tree)>, path: Seq<char>)
    requires
        calls(message, id, "git_status"@, arguments),
    ensures
        tools()[7].name == "git_status"@,
        tools()[7].arguments.len() == 1,
        tools()[7].arguments[0].name == "path"@,
        tools()[7].arguments[0].kind == "string"@,
        tools()[7].arguments[0].required,
        message_step(message, version) == (StepView::Call {
            id,
            request: Asked::GitStatus { path },
            timeout: 60_000,
        }) <==> {
            &&& given_text(lookup(arguments, "path"@), path)
        },
{
    tags_differ();
    a_call_is_no_other_method();
    no_argument_is_named_type();
    a_call_keeps_its_arguments(message, id, "git_status"@, arguments, "path"@);
}

/// `create_worktree` is advertised with the arguments `project_root` and `branch`, and a call that
/// gives them values of their kinds is that request, with these values and no others.
pub proof fn create_worktree_is_a_tool(message: Tree, version: Seq<char>, id: Tree, arguments: Seq<(Seq<char>, Tree)>, project_root: Seq<char>, branch: Seq<char>)
    requires
        calls(message, id, "create_worktree"@, arguments),
    ensures
        tools()[8].name == "create_worktree"@,
        tools()[8].arguments.len() == 2,
        tools()[8].arguments[0].name == "project_root"@,
        tools()[8].arguments[0].kind == "string"@,
        tools()[8].arguments[0].required,
        tools()[8].arguments[1].name == "branch"@,
        tools()[8].arguments[1].kind == "string"@,
        tools()[8].arguments[1].required,
        message_step(message, version) == (StepView::Call {
            id,
            request: Asked::CreateWorktree { project_root, branch },
            timeout: 300_000,
        }) <==> {
            &&& given_text(lookup(arguments, "project_root"@), project_root)
            &&& given_text(lookup(arguments, "branch"@), branch)
        },
{
    tags_differ();
    a_call_is_no_other_method();
    no_argument_is_named_type();
    a_call_keeps_its_arguments(message, id, "create_worktree"@, arguments, "project_root"@);
    a_call_keeps_its_arguments(message, id, "create_worktree"@, arguments, "branch"@);
}

/// `refresh_project` is advertised with the argument `root`, and a call that
/// gives it a value of its kind is that request, with these values and no others.
pub proof fn refresh_project_is_a_tool(message: Tree, version: Seq<char>, id: Tree, arguments: Seq<(Seq<char>, Tree)>, root: Seq<char>)
    requires
        calls(message, id, "refresh_project"@, arguments),
    ensures
        tools()[9].name == "refresh_project"@,
        tools()[9].arguments.len() == 1,
        tools()[9].arguments[0].name == "root"@,
        tools()[9].arguments[0].kind == "string"@,
        tools()[9].arguments[0].required,
        message_step(message, version) == (StepView::Call {
            id,
            request: Asked::RefreshProject { root },
            timeout: 15_000,
        }) <==> {
            &&& given_text(lookup(arguments, "root"@), root)
        },
{
    tags_differ();
    a_call_is_no_other_method();
    no_argument_is_named_type();
    a_call_keeps_its_arguments(message, id, "refresh_project"@, arguments, "root"@);
}

/// No tool is advertised but these ten.
pub proof fn the_tools_are_ten()
    ensures
        tools().len() == 10,
{
}

/// A call that is no request is refused under its id, and not made.
pub proof fn a_call_that_is_no_request_is_refused(
    message: Tree,
    version: Seq<char>,
    id: Tree,
    name: Seq<char>,
    arguments: Seq<(Seq<char>, Tree)>,
)
    requires
        calls(message, id, name, arguments),
        request_in(tagged(member(message, "params"@))) is None,
    ensures
        message_step(message, version) matches StepView::Refuse { id: under, call } && under == id && call == tagged(
            member(message, "params"@),
        ),
{
    a_call_is_no_other_method();
}

/// A worktree is given five minutes, a git status one, and everything else
/// fifteen seconds.
pub proof fn a_request_is_waited_for(request: Asked)
    ensures
        patience(request) == if request is CreateWorktree {
            5 * 60 * 1000
        } else if request is GitStatus {
            60 * 1000
        } else {
            15 * 1000
        },
{
}

proof fn envelope_names_differ()
    ensures
        "jsonrpc"@ != "id"@,
        "jsonrpc"@ != "result"@,
        "jsonrpc"@ != "error"@,
        "id"@ != "result"@,
        "id"@ != "error"@,
        "result"@ != "error"@,
        "code"@ != "message"@,
        "content"@ != "isError"@,
        "type"@ != "text"@,
        "name"@ != "version"@,
        "protocolVersion"@ != "capabilities"@,
        "protocolVersion"@ != "serverInfo"@,
        "capabilities"@ != "serverInfo"@,
{
    reveal_strlit("jsonrpc");
    reveal_strlit("id");
    reveal_strlit("result");
    reveal_strlit("error");
    reveal_strlit("code");
    reveal_strlit("message");
    reveal_strlit("content");
    reveal_strlit("isError");
    reveal_strlit("type");
    reveal_strlit("text");
    reveal_strlit("name");
    reveal_strlit("version");
    reveal_strlit("protocolVersion");
    reveal_strlit("capabilities");
    reveal_strlit("serverInfo");
    assert("jsonrpc"@.len() != "id"@.len());
    assert("jsonrpc"@.len() != "result"@.len());
    assert("jsonrpc"@.len() != "error"@.len());
    assert("id"@.len() != "result"@.len());
    assert("id"@.len() != "error"@.len());
    assert("result"@.len() != "error"@.len());
    assert("code"@.len() != "message"@.len());
    assert("content"@[0] != "isError"@[0]);
    assert("type"@[1] != "text"@[1]);
    assert("name"@.len() != "version"@.len());
    assert("protocolVersion"@.len() != "capabilities"@.len());
    assert("protocolVersion"@.len() != "serverInfo"@.len());
    assert("capabilities"@.len() != "serverInfo"@.len());
}

/// Every reply is a JSON-RPC 2.0 one, with a result or an error and never both.
pub proof fn a_reply_is_a_result_or_an_error(message: Tree, version: Seq<char>)
    ensures
        message_step(message, version) matches StepView::Reply(reply) ==> {
            &&& member(reply, "jsonrpc"@) == Some(Tree::Text("2.0"@))
            &&& member(reply, "result"@) is Some <==> member(reply, "error"@) is None
        },
{
    envelope_names_differ();
    reveal_with_fuel(lookup, 4);
}

/// An `initialize` is answered with the protocol version that was asked for,
/// and with the server's name and version.
pub proof fn a_greeting_agrees_to_the_version(message: Tree, version: Seq<char>, id: Tree, params: Tree, asked: Seq<char>)
    requires
        member(message, "id"@) == Some(id),
        member(message, "method"@) == Some(Tree::Text("initialize"@)),
        member(message, "params"@) == Some(params),
        member(params, "protocolVersion"@) == Some(Tree::Text(asked)),
    ensures
        message_step(message, version) matches StepView::Reply(reply) && member(reply, "result"@) matches Some(greeting)
            && {
            &&& member(greeting, "protocolVersion"@) == Some(Tree::Text(asked))
            &&& member(greeting, "serverInfo"@) matches Some(info) && member(info, "name"@) == Some(
                Tree::Text("alacritree"@),
            ) && member(info, "version"@) == Some(Tree::Text(version))
        },
{
    envelope_names_differ();
    reveal_with_fuel(lookup, 4);
}

/// Where no version is asked for, the greeting names the one of June 2025.
pub proof fn a_greeting_without_a_version_names_the_default(message: Tree, version: Seq<char>)
    requires
        member(message, "id"@) is Some,
        member(message, "method"@) == Some(Tree::Text("initialize"@)),
        member(message, "params"@) is None,
    ensures
        message_step(message, version) matches StepView::Reply(reply) && member(reply, "result"@) matches Some(greeting)
            && member(greeting, "protocolVersion"@) == Some(Tree::Text("2025-06-18"@)),
{
    envelope_names_differ();
    reveal_with_fuel(lookup, 4);
}

/// A `ping` is answered with an empty result.
pub proof fn a_ping_is_answered_empty(message: Tree, version: Seq<char>)
    requires
        member(message, "id"@) is Some,
        member(message, "method"@) == Some(Tree::Text("ping"@)),
    ensures
        message_step(message, version) matches StepView::Reply(reply) && member(reply, "result"@) == Some(
            Tree::Object(Seq::empty()),
        ),
{
    envelope_names_differ();
    a_call_is_no_other_method();
    reveal_with_fuel(lookup, 4);
}

/// `tools/list` is answered with the definitions, under `tools`.
pub proof fn a_listing_holds_the_definitions(message: Tree, version: Seq<char>)
    requires
        member(message, "id"@) is Some,
        member(message, "method"@) == Some(Tree::Text("tools/list"@)),
    ensures
        message_step(message, version) matches StepView::Reply(reply) && member(reply, "result"@) matches Some(result)
            && member(result, "tools"@) == Some(definitions()),
{
    envelope_names_differ();
    a_call_is_no_other_method();
    reveal_with_fuel(lookup, 4);
}

/// A method that is none of the four is answered with JSON-RPC's code for it,
/// and named in the message.
pub proof fn an_unknown_method_is_not_found(message: Tree, version: Seq<char>, method: Seq<char>)
    requires
        member(message, "id"@) is Some,
        member(message, "method"@) == Some(Tree::Text(method)),
        method != "initialize"@,
        method != "ping"@,
        method != "tools/list"@,
        method != "tools/call"@,
    ensures
        message_step(message, version) matches StepView::Reply(reply) && member(reply, "error"@) matches Some(error)
            && member(error, "code"@) == Some(Tree::Signed(-32601i64)) && member(error, "message"@) == Some(
            Tree::Text("method not found: "@ + method),
        ),
{
    envelope_names_differ();
    reveal_with_fuel(lookup, 4);
}

/// A line that is no JSON is answered with JSON-RPC's code for it, under no id.
pub proof fn a_line_that_is_no_document_is_a_parse_error(line: Seq<char>, version: Seq<char>, words: Seq<char>)
    requires
        !is_blank(line),
        read_document(line) == Err::<Tree, Seq<char>>(words),
    ensures
        line_step(line, version) matches StepView::Reply(reply) && {
            &&& member(reply, "id"@) == Some(Tree::Null)
            &&& member(reply, "error"@) matches Some(error) && member(error, "code"@) == Some(Tree::Signed(-32700i64))
                && member(error, "message"@) == Some(Tree::Text("parse error: "@ + words))
        },
{
    envelope_names_differ();
    reveal_with_fuel(lookup, 4);
}

/// What a call came to is one text under its id, marked as an error exactly
/// where the call failed.
pub proof fn an_outcome_is_one_text(id: Tree, outcome: Result<Tree, Seq<char>>)
    ensures
        member(call_tree(id, outcome), "id"@) == Some(id),
        member(call_tree(id, outcome), "result"@) matches Some(result) && {
            &&& member(result, "isError"@) == if outcome is Err {
                Some(Tree::Bool(true))
            } else {
                None
            }
            &&& member(result, "content"@) matches Some(Tree::Array(parts)) && parts.len() == 1 && member(
                parts[0],
                "type"@,
            ) == Some(Tree::Text("text"@)) && member(parts[0], "text"@) == Some(
                Tree::Text(
                    match outcome {
                        Ok(value) => document_pretty(value),
                        Err(words) => words,
                    },
                ),
            )
        },
{
    envelope_names_differ();
    reveal_with_fuel(lookup, 4);
}

proof fn definition_names_differ()
    ensures
        "name"@ != "description"@,
        "name"@ != "inputSchema"@,
        "description"@ != "inputSchema"@,
        "type"@ != "properties"@,
        "type"@ != "required"@,
        "properties"@ != "required"@,
        "type"@ != "description"@,
{
    reveal_strlit("name");
    reveal_strlit("description");
    reveal_strlit("inputSchema");
    reveal_strlit("type");
    reveal_strlit("properties");
    reveal_strlit("required");
    assert("name"@.len() != "description"@.len());
    assert("name"@.len() != "inputSchema"@.len());
    assert("description"@[0] != "inputSchema"@[0]);
    assert("type"@.len() != "properties"@.len());
    assert("type"@.len() != "required"@.len());
    assert("properties"@.len() != "required"@.len());
    assert("type"@.len() != "description"@.len());
}

proof fn a_required_name_is_listed(arguments: Seq<ArgumentView>, at: int)
    requires
        0 <= at < arguments.len(),
        arguments[at].required,
    ensures
        required_names(arguments).contains(Tree::Text(arguments[at].name)),
    decreases arguments.len(),
{
    let front = required_names(arguments.drop_last());
    if at == arguments.len() - 1 {
        assert(required_names(arguments)[front.len() as int] == Tree::Text(arguments[at].name));
    } else {
        a_required_name_is_listed(arguments.drop_last(), at);
        let i = choose|i: int| 0 <= i < front.len() && front[i] == Tree::Text(arguments[at].name);
        assert(required_names(arguments)[i] == front[i]);
    }
}

proof fn a_listed_name_is_required(arguments: Seq<ArgumentView>, name: Tree)
    requires
        required_names(arguments).contains(name),
    ensures
        exists|at: int|
            0 <= at < arguments.len() && (#[trigger] arguments[at]).required && name == Tree::Text(arguments[at].name),
    decreases arguments.len(),
{
    if arguments.len() > 0 {
        let front = required_names(arguments.drop_last());
        if front.contains(name) {
            a_listed_name_is_required(arguments.drop_last(), name);
            let at = choose|at: int|
                0 <= at < arguments.drop_last().len() && (#[trigger] arguments.drop_last()[at]).required && name
                    == Tree::Text(arguments.drop_last()[at].name);
            assert(arguments[at] == arguments.drop_last()[at]);
        } else {
            let i = choose|i: int| 0 <= i < required_names(arguments).len() && required_names(arguments)[i] == name;
            if i < front.len() {
                assert(front[i] == name);
            }
            assert(arguments[arguments.len() - 1].required);
        }
    }
}

/// Each tool is told under its name, with its description and a schema that
/// gives each argument its kind and its description, and requires exactly the
/// arguments that cannot be left out.
pub proof fn a_definition_tells_of_its_tool(i: int, j: int)
    requires
        0 <= i < tools().len(),
    ensures
        ({
            let tool = tools()[i];
            &&& definitions() matches Tree::Array(told) && told.len() == tools().len() && {
                &&& member(told[i], "name"@) == Some(Tree::Text(tool.name))
                &&& member(told[i], "description"@) == Some(Tree::Text(tool.description))
                &&& member(told[i], "inputSchema"@) matches Some(schema) && {
                    &&& member(schema, "type"@) == Some(Tree::Text("object"@))
                    &&& member(schema, "properties"@) matches Some(Tree::Object(properties)) && {
                        &&& properties.len() == tool.arguments.len()
                        &&& 0 <= j < tool.arguments.len() ==> {
                            let argument = tool.arguments[j];
                            &&& properties[j].0 == argument.name
                            &&& member(properties[j].1, "type"@) == Some(Tree::Text(argument.kind))
                            &&& member(properties[j].1, "description"@) == match argument.description {
                                Some(words) => Some(Tree::Text(words)),
                                None => None,
                            }
                        }
                    }
                    &&& match member(schema, "required"@) {
                        Some(Tree::Array(names)) => forall|name: Tree|
                            names.contains(name) <==> exists|at: int|
                                0 <= at < tool.arguments.len() && (#[trigger] tool.arguments[at]).required && name
                                    == Tree::Text(tool.arguments[at].name),
                        None => forall|at: int|
                            0 <= at < tool.arguments.len() ==> !(#[trigger] tool.arguments[at]).required,
                        _ => false,
                    }
                }
            }
        }),
{
    definition_names_differ();
    reveal_with_fuel(lookup, 4);
    let arguments = tools()[i].arguments;
    assert forall|name: Tree| required_names(arguments).contains(name) <==> exists|at: int|
        0 <= at < arguments.len() && (#[trigger] arguments[at]).required && name == Tree::Text(
            arguments[at].name,
        ) by {
        if required_names(arguments).contains(name) {
            a_listed_name_is_required(arguments, name);
        }
        if exists|at: int|
            0 <= at < arguments.len() && (#[trigger] arguments[at]).required && name == Tree::Text(
                arguments[at].name,
            ) {
            let at = choose|at: int|
                0 <= at < arguments.len() && (#[trigger] arguments[at]).required && name == Tree::Text(
                    arguments[at].name,
                );
            a_required_name_is_listed(arguments, at);
        }
    }
    assert forall|at: int|
        required_names(arguments).len() == 0 && 0 <= at < arguments.len() implies !(#[trigger] arguments[at]).required by {
        if arguments[at].required {
            a_required_name_is_listed(arguments, at);
        }
    }
}

} // verus!

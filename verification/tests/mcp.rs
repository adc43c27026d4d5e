use alacritree::ipc::request::IpcRequest;
use alacritree::json::{text, Json};
use alacritree::mcp::{
    error_response, invalid_call, take_line, take_message, timeout_for, tool_call_response, tool_definitions,
    tool_list, Step, DEFAULT_PROTOCOL,
};

fn reply(line: &str) -> String {
    match take_line(line, "1.2.3") {
        Step::Reply(json) => json.line(),
        other => panic!("{other:?} is no reply"),
    }
}

#[test]
fn a_client_is_greeted_in_the_protocol_it_speaks() {
    let greeted = reply(
        r#"{"jsonrpc":"2.0","id":1,"method":"initialize","params":{"protocolVersion":"2024-11-05"}}"#,
    );
    assert!(greeted.contains(r#""protocolVersion":"2024-11-05""#), "{greeted}");
    assert!(greeted.contains(r#""version":"1.2.3""#), "{greeted}");
    let greeted = reply(r#"{"jsonrpc":"2.0","id":1,"method":"initialize"}"#);
    assert!(greeted.contains(&format!(r#""protocolVersion":"{DEFAULT_PROTOCOL}""#)), "{greeted}");
}

#[test]
fn a_notification_is_not_answered() {
    let line = r#"{"jsonrpc":"2.0","method":"notifications/initialized"}"#;
    assert_eq!(take_line(line, "1"), Step::Nothing);
    assert_eq!(take_line("  \t ", "1"), Step::Nothing);
}

#[test]
fn an_answer_carries_the_id() {
    assert_eq!(
        reply(r#"{"jsonrpc":"2.0","id":"a","method":"ping"}"#),
        r#"{"id":"a","jsonrpc":"2.0","result":{}}"#
    );
    assert_eq!(
        reply(r#"{"jsonrpc":"2.0","id":7,"method":"resources/list"}"#),
        r#"{"error":{"code":-32601,"message":"method not found: resources/list"},"id":7,"jsonrpc":"2.0"}"#
    );
}

#[test]
fn a_line_that_is_no_document_is_a_parse_error() {
    let answer = reply("{nope");
    assert!(answer.starts_with(r#"{"error":{"code":-32700,"message":"parse error: "#), "{answer}");
    assert!(answer.contains(r#""id":null"#), "{answer}");
}

#[test]
fn a_tool_call_is_read_as_the_request_it_names() {
    let line = r#"{"jsonrpc":"2.0","id":3,"method":"tools/call",
        "params":{"name":"send_text","arguments":{"session_id":9,"text":"ls\r"}}}"#;
    assert_eq!(
        take_line(line, "1"),
        Step::Call {
            id: Json::Unsigned(3),
            request: IpcRequest::SendText { session_id: 9, text: "ls\r".into() },
            timeout: timeout_for(&IpcRequest::ListProjects),
        }
    );
    let line = r#"{"jsonrpc":"2.0","id":3,"method":"tools/call","params":{"name":"list_sessions"}}"#;
    assert!(matches!(
        take_line(line, "1"),
        Step::Call { request: IpcRequest::ListSessions, .. }
    ));
    let line = r#"{"jsonrpc":"2.0","id":3,"method":"tools/call","params":{"name":"no_such_tool",
        "arguments":{"type":"list_sessions","a":1}}}"#;
    let Step::Refuse { id, call } = take_line(line, "1") else { panic!("no such tool") };
    assert_eq!(call.line(), r#"{"a":1,"type":"no_such_tool"}"#);
    let refused = invalid_call(id, "unknown variant").line();
    assert_eq!(
        refused,
        r#"{"error":{"code":-32602,"message":"invalid tool call: unknown variant"},"id":3,"jsonrpc":"2.0"}"#
    );
}

/// A worktree create fetches from origin, so its client waits longer.
#[test]
fn a_slow_tool_is_waited_for() {
    let create = IpcRequest::CreateWorktree { project_root: "/r".into(), branch: "b".into() };
    assert!(timeout_for(&create) > timeout_for(&IpcRequest::ListSessions));
}

#[test]
fn every_tool_is_listed_with_its_arguments() {
    let tools = tool_list();
    let names: Vec<&str> = tools.iter().map(|tool| tool.name).collect();
    assert_eq!(
        names,
        [
            "list_projects",
            "list_sessions",
            "select_workspace",
            "create_session",
            "close_session",
            "send_text",
            "read_screen",
            "git_status",
            "create_worktree",
            "refresh_project",
        ]
    );
    let listed = tool_definitions().line();
    for tool in &tools {
        assert!(listed.contains(&format!(r#""name":"{}""#, tool.name)), "{} is missing", tool.name);
    }
    assert!(listed.contains(r#""required":["session_id","text"]"#), "{listed}");
}

/// A tool that failed says so in its content, where the model sees it.
#[test]
fn a_failed_tool_is_no_protocol_error() {
    let failed = tool_call_response(Json::Unsigned(1), Err("no such session".into()));
    assert_eq!(
        failed.line(),
        concat(&[
            r#"{"id":1,"jsonrpc":"2.0","result":"#,
            r#"{"content":[{"text":"no such session","type":"text"}],"isError":true}}"#,
        ])
    );
    let done = tool_call_response(Json::Unsigned(1), Ok(text("ok")));
    assert_eq!(
        done.line(),
        r#"{"id":1,"jsonrpc":"2.0","result":{"content":[{"text":"\"ok\"","type":"text"}]}}"#
    );
    assert_eq!(
        error_response(Json::Null, -1, "x").line(),
        r#"{"error":{"code":-1,"message":"x"},"id":null,"jsonrpc":"2.0"}"#
    );
}

/// A tool's answer is laid out for reading.
#[test]
fn a_document_answer_is_indented() {
    let value = Json::parse(r#"{"a":1}"#).expect("a document");
    let done = tool_call_response(Json::Unsigned(1), Ok(value)).line();
    assert!(done.contains(r#""text":"{\n  \"a\": 1\n}""#), "{done}");
}

#[test]
fn a_message_with_no_method_is_unknown() {
    let message = Json::parse(r#"{"id":1}"#).expect("a document");
    assert!(matches!(
        take_message(&message, "1"),
        Step::Reply(json) if json.line().contains("method not found: ")
    ));
}

fn concat(parts: &[&str]) -> String {
    parts.concat()
}

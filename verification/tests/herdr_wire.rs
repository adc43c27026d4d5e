use alacritree::herdr::model::{Listing, PollError, Status};
use alacritree::herdr::wire::{code_in, error_code, inventory_in, running_session_in, RawPane};
use alacritree::json::Json;
use alacritree::multiplexer::model::PaneStatus;

const WINDOWS: &str = r#"{"id":"cli:agent:list","result":{"agents":[
    {"agent":"amp","agent_status":"idle","pane_id":"w5:p1",
     "terminal_id":"term_65abfc8e300361","revision":7,"state_change_seq":3,
     "cwd":"C:\\projects\\alacritree","focused":true,
     "tab_id":"w5:t1","workspace_id":"w5"}],"type":"agent_list"}}"#;

const WSL: &str = r#"{"id":"cli:agent:list","result":{"agents":[
    {"agent":"codex","agent_status":"idle","pane_id":"w4:p1",
     "terminal_id":"term_65ab9ae95a74d2","revision":9,"state_change_seq":9,
     "cwd":"/home/dev/Git/devkit","foreground_cwd":"/home/dev/Git/devkit",
     "focused":true,"tab_id":"w4:t1","workspace_id":"w4"}],"type":"agent_list"}}"#;

const PANES: &str = r#"{"id":"cli:pane:list","result":{"panes":[
    {"agent":"amp","agent_status":"idle","pane_id":"w1:p1","tab_id":"w1:t1",
     "terminal_id":"term_a","cwd":"C:\\projects\\alacritree","focused":true,
     "terminal_title":"✫ Amp Code","terminal_title_stripped":"Amp Code",
     "scroll":{"offset_from_bottom":0},"workspace_id":"w1"},
    {"agent_status":"unknown","pane_id":"w1:p4","tab_id":"w1:t4",
     "terminal_id":"term_b","cwd":"C:\\projects\\alacritree","focused":false,
     "terminal_title":"~/p/alacritree","terminal_title_stripped":"~/p/alacritree",
     "scroll":{"offset_from_bottom":0},"workspace_id":"w1"}],"type":"pane_list"}}"#;

/// herdr strips its own decorative title prefix already, and that stripped
/// form is what distinguishes two agents of the same kind in one checkout.
#[test]
fn wire_an_agents_pane_title_is_parsed() {
    let stdout = r#"{"result":{"agents":[
        {"terminal_id":"t1","pane_id":"w5:p1","agent_status":"idle","agent":"amp",
         "terminal_title":"✫ primary","terminal_title_stripped":"primary"}]}}"#;
    let agents = Listing::Agents.parse(stdout);
    assert_eq!(agents[0].title.as_deref(), Some("primary"));
}

/// An agent herdr reports no title for is the common case, not an error.
#[test]
fn wire_a_titleless_agent_parses_with_no_title() {
    let stdout = r#"{"result":{"agents":[
        {"terminal_id":"t1","pane_id":"w5:p1","agent_status":"idle","agent":"amp"}]}}"#;
    assert_eq!(Listing::Agents.parse(stdout)[0].title, None);
}

/// A title of nothing but spaces says as little as an absent one, and must
/// not claim the row's identifying slot.
#[test]
fn wire_a_blank_title_is_no_title() {
    let stdout = r#"{"result":{"agents":[
        {"terminal_id":"t1","pane_id":"w5:p1","agent_status":"idle","agent":"amp",
         "terminal_title_stripped":"   "}]}}"#;
    assert_eq!(Listing::Agents.parse(stdout)[0].title, None);
}

/// A kind of nothing but spaces names no agent, and a row that carried it
/// would render an empty word between its separators.
#[test]
fn a_blank_kind_is_no_kind() {
    let stdout = r#"{"result":{"agents":[
        {"terminal_id":"t1","pane_id":"w5:p1","agent_status":"idle","agent":"  "}]}}"#;
    assert_eq!(Listing::Agents.parse(stdout)[0].kind, None);
}

#[test]
fn wire_parses_a_windows_agent_with_absent_optional_fields() {
    let agents = Listing::Agents.parse(WINDOWS);
    assert_eq!(agents.len(), 1);
    assert_eq!(agents[0].terminal_id, "term_65abfc8e300361");
    assert_eq!(agents[0].pane_id, "w5:p1");
    assert_eq!(agents[0].kind.as_deref(), Some("amp"));
    assert_eq!(agents[0].status, Some(Status::Idle));
    assert_eq!(agents[0].foreground_cwd, None);
}

#[test]
fn wire_parses_a_wsl_agent_with_foreground_cwd() {
    let agents = Listing::Agents.parse(WSL);
    assert_eq!(agents[0].foreground_cwd.as_deref(), Some("/home/dev/Git/devkit"));
    assert_eq!(agents[0].kind.as_deref(), Some("codex"));
}

#[test]
fn wire_empty_agent_list_is_not_an_error() {
    let reply = r#"{"id":"cli:agent:list","result":{"agents":[],"type":"agent_list"}}"#;
    assert!(Listing::Agents.parse(reply).is_empty());
}

#[test]
fn wire_unknown_fields_and_unknown_status_survive() {
    let reply = r#"{"id":"x","surprise":1,"result":{"agents":[
        {"terminal_id":"t1","pane_id":"w1:p1","agent_status":"meditating",
         "future_field":true}],"type":"agent_list"}}"#;
    let agents = Listing::Agents.parse(reply);
    assert_eq!(agents.len(), 1);
    assert_eq!(agents[0].status, Some(Status::Unknown));
}

#[test]
fn wire_an_agent_without_an_identity_is_dropped_alone() {
    let reply = r#"{"id":"x","result":{"agents":[
        {"pane_id":"w1:p1","agent_status":"idle"},
        {"terminal_id":"t2","pane_id":"w1:p2","agent_status":"idle"}],"type":"agent_list"}}"#;
    let agents = Listing::Agents.parse(reply);
    assert_eq!(agents.len(), 1);
    assert_eq!(agents[0].terminal_id, "t2");
}

#[test]
fn wire_display_agent_wins_over_agent() {
    let reply = r#"{"id":"x","result":{"agents":[
        {"terminal_id":"t1","pane_id":"w1:p1","agent_status":"idle",
         "agent":"amp","display_agent":"Amp Code"}],"type":"agent_list"}}"#;
    assert_eq!(Listing::Agents.parse(reply)[0].kind.as_deref(), Some("Amp Code"));
}

#[test]
fn wire_a_pane_listing_keeps_the_shell_beside_the_agent() {
    let panes = Listing::Panes.parse(PANES);
    assert_eq!(panes.len(), 2);
    assert_eq!(panes[0].status, Some(Status::Idle));
    assert_eq!(panes[0].kind.as_deref(), Some("amp"));
    assert_eq!(panes[1].status, None);
    assert_eq!(panes[1].kind, None);
    assert_eq!(panes[1].title.as_deref(), Some("~/p/alacritree"));
    assert_eq!(panes[1].tab_id.as_deref(), Some("w1:t4"));
}

/// One call either way: each poll is a process spawn per side, and the
/// pane listing already carries everything the agent listing does.
#[test]
fn wire_showing_panes_swaps_the_listing_rather_than_adding_one() {
    assert_eq!(Listing::wanted(false).args(), ["agent", "list"]);
    assert_eq!(Listing::wanted(true).args(), ["pane", "list"]);
}

/// The reply that arrives on stderr with stdout empty when no server is
/// listening.  A parser reading only stdout never sees this.
#[test]
fn wire_reads_the_error_code_off_stderr() {
    let stderr = r#"{"error":{"code":"server_not_running","message":"no herdr server"},"id":"cli:agent:list"}"#;
    assert_eq!(error_code(stderr).as_deref(), Some("server_not_running"));
    assert!(Listing::Agents.parse("").is_empty());
}

/// herdr strips its own decorative title prefix already, and that stripped
/// form is what distinguishes two agents of the same kind in one checkout.
#[test]
fn herdr_an_agents_pane_title_is_parsed() {
    let stdout = r#"{"result":{"agents":[
        {"terminal_id":"t1","pane_id":"w5:p1","agent_status":"idle","agent":"amp",
         "terminal_title":"✫ primary","terminal_title_stripped":"primary"}]}}"#;
    let agents = Listing::Agents.parse(stdout);
    assert_eq!(agents[0].title.as_deref(), Some("primary"));
}

/// An agent herdr reports no title for is the common case, not an error.
#[test]
fn herdr_a_titleless_agent_parses_with_no_title() {
    let stdout = r#"{"result":{"agents":[
        {"terminal_id":"t1","pane_id":"w5:p1","agent_status":"idle","agent":"amp"}]}}"#;
    assert_eq!(Listing::Agents.parse(stdout)[0].title, None);
}

/// A title of nothing but spaces says as little as an absent one, and must
/// not claim the row's identifying slot.
#[test]
fn herdr_a_blank_title_is_no_title() {
    let stdout = r#"{"result":{"agents":[
        {"terminal_id":"t1","pane_id":"w5:p1","agent_status":"idle","agent":"amp",
         "terminal_title_stripped":"   "}]}}"#;
    assert_eq!(Listing::Agents.parse(stdout)[0].title, None);
}

#[test]
fn herdr_parses_a_windows_agent_with_absent_optional_fields() {
    let agents = Listing::Agents.parse(WINDOWS);
    assert_eq!(agents.len(), 1);
    assert_eq!(agents[0].terminal_id, "term_65abfc8e300361");
    assert_eq!(agents[0].pane_id, "w5:p1");
    assert_eq!(agents[0].kind.as_deref(), Some("amp"));
    assert_eq!(agents[0].status, Some(Status::Idle));
    assert_eq!(agents[0].foreground_cwd, None);
}

#[test]
fn herdr_parses_a_wsl_agent_with_foreground_cwd() {
    let agents = Listing::Agents.parse(WSL);
    assert_eq!(agents[0].foreground_cwd.as_deref(), Some("/home/dev/Git/devkit"));
    assert_eq!(agents[0].kind.as_deref(), Some("codex"));
}

#[test]
fn herdr_empty_agent_list_is_not_an_error() {
    let reply = r#"{"id":"cli:agent:list","result":{"agents":[],"type":"agent_list"}}"#;
    assert!(Listing::Agents.parse(reply).is_empty());
}

#[test]
fn herdr_unknown_fields_and_unknown_status_survive() {
    let reply = r#"{"id":"x","surprise":1,"result":{"agents":[
        {"terminal_id":"t1","pane_id":"w1:p1","agent_status":"meditating",
         "future_field":true}],"type":"agent_list"}}"#;
    let agents = Listing::Agents.parse(reply);
    assert_eq!(agents.len(), 1);
    assert_eq!(agents[0].status, Some(Status::Unknown));
}

#[test]
fn herdr_an_agent_without_an_identity_is_dropped_alone() {
    let reply = r#"{"id":"x","result":{"agents":[
        {"pane_id":"w1:p1","agent_status":"idle"},
        {"terminal_id":"t2","pane_id":"w1:p2","agent_status":"idle"}],"type":"agent_list"}}"#;
    let agents = Listing::Agents.parse(reply);
    assert_eq!(agents.len(), 1);
    assert_eq!(agents[0].terminal_id, "t2");
}

#[test]
fn herdr_display_agent_wins_over_agent() {
    let reply = r#"{"id":"x","result":{"agents":[
        {"terminal_id":"t1","pane_id":"w1:p1","agent_status":"idle",
         "agent":"amp","display_agent":"Amp Code"}],"type":"agent_list"}}"#;
    assert_eq!(Listing::Agents.parse(reply)[0].kind.as_deref(), Some("Amp Code"));
}

#[test]
fn herdr_a_pane_listing_keeps_the_shell_beside_the_agent() {
    let panes = Listing::Panes.parse(PANES);
    assert_eq!(panes.len(), 2);
    assert_eq!(panes[0].status, Some(Status::Idle));
    assert_eq!(panes[0].kind.as_deref(), Some("amp"));
    assert_eq!(panes[1].status, None);
    assert_eq!(panes[1].kind, None);
    assert_eq!(panes[1].title.as_deref(), Some("~/p/alacritree"));
    assert_eq!(panes[1].tab_id.as_deref(), Some("w1:t4"));
}

/// One call either way: each poll is a process spawn per side, and the
/// pane listing already carries everything the agent listing does.
#[test]
fn herdr_showing_panes_swaps_the_listing_rather_than_adding_one() {
    assert_eq!(Listing::wanted(false).args(), ["agent", "list"]);
    assert_eq!(Listing::wanted(true).args(), ["pane", "list"]);
}

/// The reply that arrives on stderr with stdout empty when no server is
/// listening.  A parser reading only stdout never sees this.
#[test]
fn herdr_reads_the_error_code_off_stderr() {
    let stderr = r#"{"error":{"code":"server_not_running","message":"no herdr server"},"id":"cli:agent:list"}"#;
    assert_eq!(error_code(stderr).as_deref(), Some("server_not_running"));
    assert!(Listing::Agents.parse("").is_empty());
}

#[test]
fn an_inventory_names_every_terminal() {
    let reply = Json::parse(
        r#"{"result":{"panes":[{"terminal_id":"b"},{"terminal_id":"a"},{"terminal_id":"b"}]}}"#,
    );
    assert_eq!(inventory_in(&reply), Ok(vec!["b".to_string(), "a".into(), "b".into()]));
}

#[test]
fn an_inventory_that_cannot_be_read_is_no_inventory() {
    let broken = PollError::Absent("invalid_pane_inventory");
    assert_eq!(inventory_in(&None), Err(broken.clone()));
    assert_eq!(inventory_in(&Json::parse(r#"{"result":{"panes":[{}]}}"#)), Err(broken.clone()));
    assert_eq!(inventory_in(&Json::parse(r#"{"result":{}}"#)), Err(broken));
}

#[test]
fn the_running_session_is_the_one_that_says_so() {
    let reply = Json::parse(
        r#"{"sessions":[{"name":"old"},{"name":"main","running":true}]}"#,
    );
    assert_eq!(running_session_in(&reply), Some("main".to_string()));
    assert_eq!(running_session_in(&Json::parse(r#"{"sessions":[]}"#)), None);
    assert_eq!(running_session_in(&None), None);
}

#[test]
fn a_malformed_entry_is_dropped() {
    let entry = Json::parse(r#"{"terminal_id":7}"#).expect("a document");
    assert!(RawPane::decode(&entry).is_err());
    assert_eq!(code_in(&Json::parse(r#"{"error":{"code":"x"}}"#)), Some("x".to_string()));
    assert_eq!(code_in(&None), None);
}

/// A record may be spelled as the list of its values.
#[test]
fn a_listing_spelled_in_order_is_read() {
    let row = r#"["t1","w1:p1",null,"idle","amp",null," x ",true,"/a",null]"#;
    let agents = Listing::Agents.parse(&format!("[[[{row}]]]"));
    assert_eq!(agents.len(), 1);
    assert_eq!((agents[0].terminal_id.as_str(), agents[0].pane_id.as_str()), ("t1", "w1:p1"));
    assert_eq!(agents[0].title.as_deref(), Some("x"));
    assert_eq!(agents[0].cwd.as_deref(), Some("/a"));
    assert!(agents[0].focused);
    assert_eq!(Listing::Panes.parse(&format!("[[[],[{row}]]]")).len(), 1);
    assert!(Listing::Panes.parse(&format!("[[[{row}]]]")).is_empty());
    assert!(Listing::Panes.parse(&format!("[[[],[{row}],1]]")).is_empty());
    assert!(Listing::Agents.parse(r#"[[[["t1","w1:p1",null,"idle"]]]]"#).is_empty());
    assert_eq!(error_code(r#"[["no_server"]]"#).as_deref(), Some("no_server"));
    assert_eq!(error_code(r#"{"error":["no_server"]}"#).as_deref(), Some("no_server"));
    assert_eq!(error_code(r#"[["no_server"],1]"#), None);
    let sessions = |text: &str| running_session_in(&Json::parse(text));
    assert_eq!(sessions(r#"[[["a"],["b",true]]]"#).as_deref(), Some("b"));
    assert_eq!(sessions("[]"), None);
    assert_eq!(sessions(r#"[[["a",true,1]]]"#), None);
}

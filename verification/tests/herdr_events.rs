use alacritree::herdr::events::{
    classify_exit, decode_event, decode_reply, keeps_bridge, lifecycle_request, opening_step, status_request,
    Event, Message, Relay, Spawned, StreamState,
};
use alacritree::herdr::model::PollError;
use alacritree::multiplexer::model::PaneStatus;

#[test]
fn the_ack_starts_a_stream() {
    assert_eq!(
        decode_reply(r#"{"id":"alacritree:events","result":{"type":"subscription_started"}}"#),
        Ok(())
    );
}

/// A status subscription naming a pane herdr no longer has is refused
/// whole, with the code the endpoint logs.
#[test]
fn a_refusal_carries_herdr_code() {
    let line = r#"{"id":"alacritree:events","error":{"code":"pane_not_found","message":"no pane w1-9"}}"#;
    assert_eq!(decode_reply(line), Err("pane_not_found".into()));
    assert_eq!(decode_reply("not json"), Err("unexpected_reply".into()));
}

#[test]
fn a_status_event_names_its_pane_and_state() {
    let line = r#"{"event":"pane.agent_status_changed","data":{"pane_id":"w1-2","workspace_id":"w1","agent_status":"working","agent":"amp","state_labels":{}}}"#;
    assert!(matches!(
        decode_event(line),
        Some(Event::Status { pane_id, status: PaneStatus::Working }) if pane_id == "w1-2"
    ));
}

#[test]
fn a_focus_event_names_its_pane() {
    let line = r#"{"event":"pane_focused","data":{"type":"pane_focused","pane_id":"w1-3","workspace_id":"w1"}}"#;
    assert!(
        matches!(decode_event(line), Some(Event::Focused { pane_id }) if pane_id == "w1-3")
    );
}

/// `pane.updated` carries the whole pane in the shape `pane list` prints,
/// so a title or cwd change patches the row without a listing.
#[test]
fn an_updated_pane_carries_its_row() {
    let line = r#"{"event":"pane_updated","data":{"type":"pane_updated","pane":{"pane_id":"w1-2","terminal_id":"term_a","workspace_id":"w1","tab_id":"w1:1","focused":false,"cwd":"/repo","agent":"amp","terminal_title_stripped":"review","agent_status":"idle","revision":4}}}"#;
    let Some(Event::Updated(pane)) = decode_event(line) else { panic!("not an update") };
    assert_eq!(pane.terminal_id, "term_a");
    assert_eq!(pane.title.as_deref(), Some("review"));
    assert_eq!(pane.status, Some(PaneStatus::Idle));
}

/// A kind alacritree has no patch for, including one a later herdr adds,
/// sends it back to the listing.
#[test]
fn any_other_event_asks_for_a_listing() {
    let line = r#"{"event":"pane_closed","data":{"type":"pane_closed","pane_id":"w1-2","workspace_id":"w1"}}"#;
    assert!(matches!(decode_event(line), Some(Event::Changed)));
    let unheard_of = r#"{"event":"pane_teleported","data":{}}"#;
    assert!(matches!(decode_event(unheard_of), Some(Event::Changed)));
    assert!(decode_event("garbage").is_none());
}

#[test]
fn a_status_request_names_every_pane() {
    let line = status_request(&vec!["w1-1".into(), "w1-2".into()]);
    assert!(line.ends_with('\n'), "herdr reads one line per request");
    let request: serde_json::Value = serde_json::from_str(&line).unwrap();
    assert_eq!(request["method"], "events.subscribe");
    let subscriptions = request["params"]["subscriptions"].as_array().unwrap();
    assert_eq!(subscriptions.len(), 2);
    assert_eq!(subscriptions[1]["type"], "pane.agent_status_changed");
    assert_eq!(subscriptions[1]["pane_id"], "w1-2");
}

#[test]
fn only_a_refused_connect_is_worth_waiting_out() {
    let refused = "error: failed to connect to remote Herdr API socket \
                   /home/u/.config/herdr/herdr.sock: No such file or directory";
    assert_eq!(classify_exit(refused), PollError::Server("server_not_running".into()));
    assert_eq!(
        classify_exit("sh: 1: exec: herdr: not found"),
        PollError::Absent("bridge_unavailable")
    );
}

#[test]
fn a_lifecycle_request_subscribes_on_one_line() {
    let line = lifecycle_request();
    assert!(line.ends_with('\n'));
    let request: serde_json::Value = serde_json::from_str(&line).unwrap();
    assert_eq!(request["method"], "events.subscribe");
    assert_eq!(request["id"], "alacritree:events");
}

#[test]
fn a_stream_that_never_started_says_why() {
    let mut relay = Relay::new();
    assert!(matches!(
        relay.line(r#"{"error":{"code":"pane_not_found","message":"x"}}"#),
        None
    ));
    assert_eq!(
        relay.ended("whatever"),
        Message::Ended(Some(PollError::Server("pane_not_found".into())))
    );
    let relay = Relay::new();
    assert_eq!(relay.ended("x"), Message::Ended(Some(PollError::Absent("bridge_unavailable"))));
    let mut relay = Relay::new();
    let ack = r#"{"result":{"type":"subscription_started"}}"#;
    assert_eq!(relay.line(ack), Some(Message::Started));
    assert_eq!(relay.line("garbage"), None);
    assert_eq!(
        relay.line(r#"{"event":"pane_closed","data":{}}"#),
        Some(Message::Event(Event::Changed))
    );
    assert_eq!(relay.ended("x"), Message::Ended(None));
}

#[test]
fn a_bridge_that_cannot_start_reads_as_ended() {
    assert_eq!(opening_step(Spawned::Waiting), (StreamState::Opening, None));
    assert_eq!(opening_step(Spawned::Running), (StreamState::Open, None));
    let refused = PollError::Absent("spawn_failed");
    assert_eq!(
        opening_step(Spawned::Refused(refused.clone())),
        (StreamState::Closed, Some(Message::Ended(Some(refused))))
    );
    assert_eq!(opening_step(Spawned::Panicked).0, StreamState::Closed);
}

#[test]
fn a_bridge_without_its_request_is_not_kept() {
    assert!(keeps_bridge(true, true, false));
    assert!(keeps_bridge(true, false, true));
    assert!(!keeps_bridge(true, false, false));
    assert!(!keeps_bridge(false, true, false));
}

/// A line may be spelled as the list of its values.
#[test]
fn a_line_spelled_in_order_is_read() {
    assert_eq!(decode_reply(r#"[{"type":"subscription_started"},null]"#), Ok(()));
    assert_eq!(decode_reply(r#"[null,["refused"]]"#), Err("refused".into()));
    assert_eq!(
        decode_reply(r#"[{"type":"subscription_started"}]"#),
        Err("unexpected_reply".into())
    );
    assert!(
        matches!(decode_event(r#"["pane_focused",{"pane_id":"p"}]"#), Some(Event::Focused { pane_id }) if pane_id == "p")
    );
    assert!(matches!(decode_event(r#"["pane_created"]"#), Some(Event::Changed)));
    assert!(decode_event(r#"["pane_created",null,1]"#).is_none());
    assert!(decode_event("[]").is_none());
}

/// A bridge's messages start once and end once, whatever its lines are.
#[test]
fn a_bridge_starts_once_and_ends_once() {
    let ack = r#"{"result":{"type":"subscription_started"}}"#;
    let lines = [r#"{"event":"pane_focused","data":{"pane_id":"p"}}"#, ack, ack, "nonsense",
        r#"{"event":"pane_created"}"#];
    let mut relay = Relay::new();
    let mut said: Vec<Message> = lines.iter().filter_map(|line| relay.line(line)).collect();
    said.push(relay.ended("failed to connect"));
    assert!(matches!(
        said.as_slice(),
        [Message::Started, Message::Event(Event::Changed), Message::Ended(None)]
    ));
    let mut relay = Relay::new();
    assert!(relay.line("nonsense").is_none());
    assert!(matches!(relay.ended(""), Message::Ended(Some(PollError::Server(code))) if code == "unexpected_reply"));
}

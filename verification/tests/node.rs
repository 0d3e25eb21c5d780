use lavalink_node::decoder::decode;
use lavalink_node::events::{EventKind, Events, Registry};
use lavalink_node::handshake::{ConnectError, HandshakeFailure, HeaderField};
use lavalink_node::model::UserId;
use lavalink_node::node::{Incoming, LoopStep, Node, NodeBuilder};
use lavalink_node::reaction::{react, Action};
use serde_json::Value;

const ADDRESS: &str = "ws://localhost:2333/v4/websocket";
const KEY: &str = "dGhlIHNhbXBsZSBub25jZQ==";

fn builder() -> NodeBuilder<&'static str> {
    NodeBuilder {
        hostname: "localhost:2333".to_string(),
        password: "youshallnotpass".to_string(),
        user_id: UserId(551759974905151548),
        ..Default::default()
    }
}

fn node() -> Node<&'static str> {
    Node::new(3, ADDRESS.to_string(), builder())
}

#[test]
fn default_builder_is_empty() {
    let builder: NodeBuilder<u8> = NodeBuilder::default();
    assert_eq!(builder.hostname, "");
    assert!(!builder.is_ssl);
    assert_eq!(builder.password, "");
    assert_eq!(builder.user_id, UserId(0));
    assert_eq!(builder.session_id, None);
    assert!(builder.events.handler(EventKind::Raw).is_none());
    assert!(builder.events.handler(EventKind::Ready).is_none());
}

#[test]
fn new_node_is_stopped_and_has_no_session() {
    let node = node();
    assert_eq!(node.id, 3);
    assert_eq!(node.websocket_address, ADDRESS);
    assert_eq!(node.password, "youshallnotpass");
    assert_eq!(node.user_id, UserId(551759974905151548));
    assert_eq!(node.session_id, "");
    assert!(!node.is_running);
}

#[test]
fn new_node_takes_the_session_to_resume() {
    let mut builder = builder();
    builder.session_id = Some("old-session".to_string());
    builder.events.ready = Some("on ready");
    let node = Node::new(0, ADDRESS.to_string(), builder);
    assert_eq!(node.session_id, "old-session");
    assert_eq!(node.events.handler(EventKind::Ready), Some(&"on ready"));
    let request = node.handshake_request(KEY).unwrap();
    assert_eq!(request.headers[7].name, "Session-Id");
    assert_eq!(request.headers[7].value, "old-session");
}

#[test]
fn request_of_a_node() {
    let request = node().handshake_request(KEY).unwrap();
    assert_eq!(request.method, "GET");
    assert_eq!(request.uri, ADDRESS);
    let mut names = Vec::new();
    let mut values = Vec::new();
    for header in &request.headers {
        names.push(header.name.as_str());
        values.push(header.value.as_str());
    }
    assert_eq!(
        names,
        vec![
            "Host", "Connection", "Upgrade", "Sec-WebSocket-Version", "Sec-WebSocket-Key",
            "Authorization", "User-Id", "Session-Id", "Client-Name",
        ]
    );
    assert_eq!(
        values,
        vec![
            ADDRESS, "Upgrade", "websocket", "13", KEY, "youshallnotpass", "551759974905151548",
            "", "lavalink_node/0.1.0",
        ]
    );
}

#[test]
fn request_of_a_node_with_a_bad_password() {
    let mut node = node();
    node.password = "line\nbreak".to_string();
    assert_eq!(
        node.handshake_request(KEY).unwrap_err(),
        ConnectError::HeaderEncoding(HeaderField::Authorization)
    );
    assert_eq!(
        node.fresh_handshake_request().unwrap_err(),
        ConnectError::HeaderEncoding(HeaderField::Authorization)
    );
}

#[test]
fn fresh_request_carries_a_key_of_sixteen_bytes_in_base_64() {
    let request = node().fresh_handshake_request().unwrap();
    assert_eq!(request.headers.len(), 9);
    assert_eq!(request.headers[4].name, "Sec-WebSocket-Key");
    let key = &request.headers[4].value;
    assert_eq!(key.len(), 24);
    assert!(key.ends_with("=="));
    for c in key.chars() {
        assert!(c.is_ascii_alphanumeric() || c == '+' || c == '/' || c == '=');
    }
    assert_eq!(request.headers[0].value, ADDRESS);
    assert_eq!(request.headers[5].value, "youshallnotpass");
}

#[test]
fn fresh_request_is_the_request_for_its_key() {
    let node = node();
    let fresh = node.fresh_handshake_request().unwrap();
    let again = node.handshake_request(&fresh.headers[4].value).unwrap();
    assert_eq!(fresh, again);
}

#[test]
fn fresh_request_meets_the_same_faults() {
    let mut node = node();
    node.websocket_address = "not a uri".to_string();
    assert_eq!(node.fresh_handshake_request().unwrap_err(), ConnectError::InvalidAddress);
}

#[test]
fn running_after_a_handshake_that_succeeded() {
    let mut node = node();
    assert!(!node.is_running);
    assert_eq!(node.connect(Ok(())), Ok(()));
    assert!(node.is_running);
    assert_eq!(node.session_id, "");
    assert_eq!(node.id, 3);
}

#[test]
fn stopped_after_a_handshake_that_failed() {
    let mut node = node();
    assert_eq!(node.connect(Err(HandshakeFailure::Network)), Err(ConnectError::Network));
    assert!(!node.is_running);
    assert_eq!(node.connect(Err(HandshakeFailure::Rejected)), Err(ConnectError::Rejected));
    assert!(!node.is_running);
}

#[test]
fn a_failed_reconnect_leaves_a_running_node_running() {
    let mut node = node();
    node.connect(Ok(())).unwrap();
    assert_eq!(node.connect(Err(HandshakeFailure::Network)), Err(ConnectError::Network));
    assert!(node.is_running);
}

#[test]
fn stopped_when_the_stream_ends() {
    let mut node = node();
    node.connect(Ok(())).unwrap();
    assert!(matches!(node.receive(Incoming::Closed), LoopStep::Stop));
    assert!(!node.is_running);
}

#[test]
fn stopped_when_the_transport_fails() {
    let mut node = node();
    node.connect(Ok(())).unwrap();
    assert!(matches!(node.receive(Incoming::Failed), LoopStep::Stop));
    assert!(!node.is_running);
}

#[test]
fn frames_that_are_no_text_are_passed_over() {
    let mut node = node();
    node.connect(Ok(())).unwrap();
    assert!(matches!(node.receive(Incoming::Other), LoopStep::Skip));
    assert!(node.is_running);
}

#[test]
fn text_that_is_no_json_is_passed_over() {
    let mut node = node();
    node.connect(Ok(())).unwrap();
    for text in ["", "not json", "{\"op\":", "{\"op\":\"ready\"} trailing"] {
        assert!(matches!(node.receive(Incoming::Text(text.to_string())), LoopStep::Skip));
        assert!(node.is_running);
    }
}

#[test]
fn text_that_is_json_is_handed_on() {
    let mut node = node();
    node.connect(Ok(())).unwrap();
    let text = r#"{"op":"ready","sessionId":"abc123","resumed":false}"#;
    match node.receive(Incoming::Text(text.to_string())) {
        LoopStep::Spawn(envelope) => {
            assert_eq!(envelope, serde_json::from_str::<Value>(text).unwrap());
            assert_eq!(envelope.get("sessionId").and_then(Value::as_str), Some("abc123"));
        }
        other => panic!("step {:?}", other),
    }
    assert!(node.is_running);
    assert_eq!(node.session_id, "");
}

#[test]
fn json_that_is_no_envelope_is_still_handed_on() {
    let mut node = node();
    match node.receive(Incoming::Text("[1,2]".to_string())) {
        LoopStep::Spawn(envelope) => assert!(decode(&envelope).is_err()),
        other => panic!("step {:?}", other),
    }
}

#[test]
fn setting_the_session_replaces_it() {
    let mut node = node();
    node.apply(&Action::SetSession("abc123".to_string()));
    assert_eq!(node.session_id, "abc123");
    node.apply(&Action::SetSession("def456".to_string()));
    assert_eq!(node.session_id, "def456");
    assert_eq!(node.password, "youshallnotpass");
    assert!(!node.is_running);
}

#[test]
fn other_actions_leave_the_session() {
    let mut node = node();
    node.apply(&Action::SetSession("abc123".to_string()));
    node.apply(&Action::Dispatch(EventKind::Ready));
    node.apply(&Action::UpdateState { guild_id: lavalink_node::model::GuildId(1) });
    node.apply(&Action::UpdateTrack { guild_id: lavalink_node::model::GuildId(1) });
    node.apply(&Action::Finish {
        guild_id: lavalink_node::model::GuildId(1),
        reason: "FINISHED".to_string(),
    });
    assert_eq!(node.session_id, "abc123");
}

#[test]
fn dispatch_reads_the_session_of_the_node() {
    let mut node = node();
    node.events.raw = Some("node raw");
    let mut client: Events<&'static str> = Events::new();
    client.raw = Some("client raw");
    node.apply(&Action::SetSession("abc123".to_string()));
    let calls = node.dispatch(&client, EventKind::Raw);
    assert_eq!(calls.len(), 2);
    assert_eq!(calls[0].registry, Registry::NodeLocal);
    assert_eq!(*calls[0].handler, "node raw");
    assert_eq!(calls[0].session_id, "abc123");
    assert_eq!(calls[1].registry, Registry::Global);
    assert_eq!(*calls[1].handler, "client raw");
    assert_eq!(calls[1].session_id, "abc123");
}

#[test]
fn ready_then_player_update_without_a_handle() {
    let mut node = node();
    node.events.ready = Some("node ready");
    node.events.player_update = Some("node update");
    let mut client: Events<&'static str> = Events::new();
    client.raw = Some("client raw");
    node.connect(Ok(())).unwrap();

    let mut log: Vec<String> = Vec::new();
    let messages = vec![
        r#"{"op":"ready","sessionId":"abc123","resumed":false}"#,
        r#"{"op":"playerUpdate","guildId":"42","state":{"position":0}}"#,
    ];
    for text in messages {
        let envelope = match node.receive(Incoming::Text(text.to_string())) {
            LoopStep::Spawn(envelope) => envelope,
            other => panic!("step {:?}", other),
        };
        let event = decode(&envelope).unwrap();
        let plan = react(&event, false);
        for action in &plan {
            node.apply(action);
            match action {
                Action::Dispatch(kind) => {
                    for call in node.dispatch(&client, *kind) {
                        log.push(format!("{} with {}", call.handler, call.session_id));
                    }
                }
                Action::SetSession(id) => log.push(format!("session {}", id)),
                _ => log.push("push".to_string()),
            }
        }
    }
    assert_eq!(node.session_id, "abc123");
    assert_eq!(
        log,
        vec![
            "session abc123",
            "node ready with abc123",
            "client raw with abc123",
            "node update with abc123",
            "client raw with abc123",
        ]
    );
}

#[test]
fn message_without_op_changes_and_dispatches_nothing() {
    let mut node = node();
    node.events.raw = Some("node raw");
    let envelope = match node.receive(Incoming::Text(r#"{"sessionId":"abc123"}"#.to_string())) {
        LoopStep::Spawn(envelope) => envelope,
        other => panic!("step {:?}", other),
    };
    assert!(decode(&envelope).is_err());
    assert_eq!(node.session_id, "");
}

use graphql_proxy::enums::ConnectionType;
use graphql_proxy::enums::MessageDirection;
use graphql_proxy::headers::Header;
use graphql_proxy::headers::Headers;
use graphql_proxy::json::JsonValue;
use graphql_proxy::ws_proxy::WsFrame;
use graphql_proxy::ws_proxy::begin_ws_session;

fn headers(pairs: Vec<(&str, &str)>) -> Headers {
    Headers {
        entries: pairs
            .into_iter()
            .map(|(n, v)| Header { name: n.to_string(), value: v.to_string() })
            .collect(),
    }
}

fn obj(pairs: Vec<(&str, JsonValue)>) -> JsonValue {
    JsonValue::Object(pairs.into_iter().map(|(k, v)| (k.to_string(), v)).collect())
}

fn s(text: &str) -> JsonValue {
    JsonValue::String(text.to_string())
}

#[test]
fn upgrade_emits_synthetic_pair_and_strips_handshake_names() {
    let (mut session, upstream_headers, request_message) = begin_ws_session(
        "ws://upstream/api/graphql-ws".to_string(),
        headers(vec![("sec-websocket-key", "generated")]),
        headers(vec![
            ("host", "proxy"),
            ("upgrade", "websocket"),
            ("sec-websocket-key", "client"),
            ("x-token", "t"),
        ]),
        &headers(vec![("x-a", "1")]),
    );
    assert_eq!(request_message.sequence_counter, 0);
    assert_eq!(request_message.connection_type, ConnectionType::Ws);
    assert_eq!(request_message.message_direction, MessageDirection::Request);
    assert_eq!(request_message.message, JsonValue::Null);
    // The generated handshake key stays; the client's copy of the
    // handshake names is dropped; ordinary names and the overlay move.
    assert_eq!(
        upstream_headers.by_name("sec-websocket-key"),
        Some(&"generated".to_string())
    );
    assert_eq!(upstream_headers.by_name("x-token"), Some(&"t".to_string()));
    assert_eq!(upstream_headers.by_name("x-a"), Some(&"1".to_string()));
    assert_eq!(upstream_headers.by_name("upgrade"), None);
    assert_eq!(
        request_message.transmitted_headers.as_ref().unwrap().entries,
        upstream_headers.entries
    );

    let (client_headers, response_message) = session.on_upgrade_response(
        headers(vec![
            ("sec-websocket-accept", "ours"),
            ("sec-websocket-protocol", "graphql-transport-ws"),
        ]),
        headers(vec![
            ("sec-websocket-accept", "theirs"),
            ("sec-websocket-protocol", "other"),
            ("x-server", "upstream"),
        ]),
        &headers(vec![("x-b", "2")]),
    );
    assert_eq!(response_message.sequence_counter, 1);
    assert_eq!(response_message.message_direction, MessageDirection::Response);
    assert_eq!(response_message.connection_id, request_message.connection_id);
    // The client-side handshake values survive; the upstream's copies
    // of the handshake names do not overwrite them.
    assert_eq!(
        client_headers.by_name("sec-websocket-accept"),
        Some(&"ours".to_string())
    );
    assert_eq!(
        client_headers.by_name("sec-websocket-protocol"),
        Some(&"graphql-transport-ws".to_string())
    );
    assert_eq!(client_headers.by_name("x-server"), Some(&"upstream".to_string()));
    assert_eq!(client_headers.by_name("x-b"), Some(&"2".to_string()));
    assert_eq!(session.sequence_counter, 2);
}

#[test]
fn tunnel_mirrors_frames_with_monotone_counters() {
    // Three client text frames and two upstream replies: five
    // messages, one connection id, strictly increasing counters per
    // direction.
    let (mut session, _h, upgrade_request) = begin_ws_session(
        "ws://upstream/api/graphql-ws".to_string(),
        headers(vec![]),
        headers(vec![]),
        &headers(vec![]),
    );
    let connection_id = upgrade_request.connection_id.clone();

    let client_frames = vec![
        WsFrame::Text("{\"type\":\"connection_init\"}".to_string()),
        WsFrame::Text("{\"type\":\"subscribe\",\"id\":\"1\"}".to_string()),
        WsFrame::Text("plain".to_string()),
    ];
    let upstream_frames = vec![
        WsFrame::Text("{\"type\":\"connection_ack\"}".to_string()),
        WsFrame::Text("{\"type\":\"next\",\"id\":\"1\",\"payload\":{\"data\":{}}}".to_string()),
    ];

    let mut requests = Vec::new();
    for f in &client_frames {
        if let Some(m) = session.mirror_frame(f, MessageDirection::Request, true) {
            requests.push(m);
        }
    }
    let mut responses = Vec::new();
    for f in &upstream_frames {
        if let Some(m) = session.mirror_frame(f, MessageDirection::Response, true) {
            responses.push(m);
        }
    }

    assert_eq!(requests.len(), 3);
    assert_eq!(responses.len(), 2);
    for m in requests.iter().chain(responses.iter()) {
        assert_eq!(m.connection_id, connection_id);
        assert_eq!(m.connection_type, ConnectionType::Ws);
        assert!(m.transmitted_headers.is_none());
    }
    assert!(requests[0].sequence_counter < requests[1].sequence_counter);
    assert!(requests[1].sequence_counter < requests[2].sequence_counter);
    assert!(responses[0].sequence_counter < responses[1].sequence_counter);

    // Text frames parse to JSON when they can, and stay text when not.
    assert_eq!(requests[0].message, obj(vec![("type", s("connection_init"))]));
    assert_eq!(requests[2].message, s("plain"));
}

#[test]
fn binary_frames_become_byte_arrays_and_control_frames_pass() {
    let (mut session, _h, _m) = begin_ws_session(
        "ws://upstream/api/graphql-ws".to_string(),
        headers(vec![]),
        headers(vec![]),
        &headers(vec![]),
    );

    let frame = WsFrame::Binary(vec![0, 7, 42, 200, 255]);
    let m = session.mirror_frame(&frame, MessageDirection::Request, true).unwrap();
    assert_eq!(
        m.message,
        JsonValue::Array(vec![
            JsonValue::Number("0".to_string()),
            JsonValue::Number("7".to_string()),
            JsonValue::Number("42".to_string()),
            JsonValue::Number("200".to_string()),
            JsonValue::Number("255".to_string()),
        ])
    );

    let counter_before = session.sequence_counter;
    assert!(session
        .mirror_frame(&WsFrame::Ping(vec![1]), MessageDirection::Request, true)
        .is_none());
    assert!(session
        .mirror_frame(&WsFrame::Pong(vec![1]), MessageDirection::Response, true)
        .is_none());
    assert!(session
        .mirror_frame(&WsFrame::Close, MessageDirection::Request, true)
        .is_none());
    assert_eq!(session.sequence_counter, counter_before);

    // Without subscribers nothing is mirrored and the counter holds.
    assert!(session
        .mirror_frame(
            &WsFrame::Text("x".to_string()),
            MessageDirection::Request,
            false
        )
        .is_none());
    assert_eq!(session.sequence_counter, counter_before);
}

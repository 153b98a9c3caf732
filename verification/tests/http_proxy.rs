use graphql_proxy::headers::Header;
use graphql_proxy::headers::Headers;
use graphql_proxy::http_proxy::ForwardDecision;
use graphql_proxy::http_proxy::begin_http_exchange;
use graphql_proxy::http_proxy::decide_forward;
use graphql_proxy::http_proxy::graphql_error_body;
use graphql_proxy::http_proxy::mutation_prohibited_message;
use graphql_proxy::http_proxy::process_server_response;
use graphql_proxy::enums::ConnectionType;
use graphql_proxy::enums::MessageDirection;
use graphql_proxy::json::JsonValue;

fn headers(pairs: Vec<(&str, &str)>) -> Headers {
    Headers {
        entries: pairs
            .into_iter()
            .map(|(n, v)| Header { name: n.to_string(), value: v.to_string() })
            .collect(),
    }
}

fn obj(pairs: Vec<(&str, JsonValue)>) -> JsonValue {
    JsonValue::Object(pairs.into_iter().map(|(k, v)| (k.to_string(), v)).collect())
}

fn s(text: &str) -> JsonValue {
    JsonValue::String(text.to_string())
}

#[test]
fn query_pass_through_emits_request_then_response() {
    // A plain query with mutations allowed reaches the upstream; the bus
    // sees REQUEST then RESPONSE under one connection id, counters 0
    // and 1.
    let body = || obj(vec![("query", s("{a}"))]);
    let (exchange, outbound, request_message) = begin_http_exchange(
        "http://upstream/api/graphql".to_string(),
        &headers(vec![("accept", "application/json")]),
        &headers(vec![]),
        body(),
        true,
    );
    let request_message = request_message.unwrap();
    assert_eq!(request_message.sequence_counter, 0);
    assert_eq!(request_message.connection_type, ConnectionType::Http);
    assert_eq!(request_message.message_direction, MessageDirection::Request);
    assert_eq!(request_message.message, body());
    assert_eq!(
        request_message.transmitted_headers.as_ref().unwrap().entries,
        outbound.entries
    );
    assert_eq!(request_message.server_endpoint_url, "http://upstream/api/graphql");

    let decision = decide_forward("{a}", None, false);
    assert!(matches!(decision, ForwardDecision::Forward));

    let (client_headers, response_message) = process_server_response(
        &exchange,
        headers(vec![("content-type", "application/json")]),
        &headers(vec![]),
        "{\"data\":{\"a\":1}}",
        true,
    );
    let response_message = response_message.unwrap();
    assert_eq!(response_message.sequence_counter, 1);
    assert_eq!(response_message.message_direction, MessageDirection::Response);
    assert_eq!(response_message.connection_id, request_message.connection_id);
    assert_eq!(
        response_message.message,
        obj(vec![("data", obj(vec![("a", JsonValue::Number("1".to_string()))]))])
    );
    assert_eq!(
        response_message.transmitted_headers.as_ref().unwrap().entries,
        client_headers.entries
    );
}

#[test]
fn mutation_blocked_when_prohibited() {
    let decision = decide_forward("mutation{m}", None, true);
    assert!(matches!(decision, ForwardDecision::MutationProhibited));

    // With mutations allowed the same request goes through.
    let decision = decide_forward("mutation{m}", None, false);
    assert!(matches!(decision, ForwardDecision::Forward));

    // A query is never blocked.
    let decision = decide_forward("{a}", None, true);
    assert!(matches!(decision, ForwardDecision::Forward));

    let message = mutation_prohibited_message();
    assert_eq!(message, "Mutations are set to be prohibited");
    let body = graphql_error_body(message.as_str());
    assert_eq!(
        body,
        obj(vec![(
            "errors",
            JsonValue::Array(vec![obj(vec![(
                "message",
                s("Mutations are set to be prohibited"),
            )])]),
        )])
    );
}

#[test]
fn operation_selection_rules() {
    // Multiple named operations: the name picks the operation.
    let doc = "query q{a} mutation m{b}";
    let name_q = "q".to_string();
    let name_m = "m".to_string();
    assert!(matches!(
        decide_forward(doc, Some(&name_m), true),
        ForwardDecision::MutationProhibited
    ));
    assert!(matches!(
        decide_forward(doc, Some(&name_q), true),
        ForwardDecision::Forward
    ));
    // A missing name selects nothing: not a mutation.
    let name_x = "x".to_string();
    assert!(matches!(
        decide_forward(doc, Some(&name_x), true),
        ForwardDecision::Forward
    ));
    // No name: any mutation among the operations is blocked.
    assert!(matches!(
        decide_forward(doc, None, true),
        ForwardDecision::MutationProhibited
    ));
}

#[test]
fn parse_failure_is_reported() {
    let decision = decide_forward("{", None, false);
    match decision {
        ForwardDecision::ParseError(e) => assert!(!e.is_empty()),
        _ => panic!("expected a parse error"),
    }
}

#[test]
fn unparsable_body_is_mirrored_as_text() {
    let (exchange, _outbound, _m) = begin_http_exchange(
        "http://upstream/api/graphql".to_string(),
        &headers(vec![]),
        &headers(vec![]),
        obj(vec![("query", s("{a}"))]),
        true,
    );
    let (_client_headers, response_message) =
        process_server_response(&exchange, headers(vec![]), &headers(vec![]), "not json", true);
    assert_eq!(response_message.unwrap().message, s("not json"));
}

#[test]
fn request_header_overlay_reaches_upstream() {
    // Admin overlay x-a:1 joins a POST without x-a, and the captured
    // request's header snapshot holds it.
    let (_exchange, outbound, request_message) = begin_http_exchange(
        "http://upstream/api/graphql".to_string(),
        &headers(vec![("accept", "*/*"), ("host", "proxy"), ("content-type", "x")]),
        &headers(vec![("x-a", "1")]),
        obj(vec![("query", s("{a}"))]),
        true,
    );
    assert_eq!(outbound.by_name("x-a"), Some(&"1".to_string()));
    // Hop-by-hop names were stripped before forwarding.
    assert_eq!(outbound.by_name("host"), None);
    assert_eq!(outbound.by_name("content-type"), None);
    assert_eq!(outbound.by_name("accept"), Some(&"*/*".to_string()));
    let snapshot = request_message.unwrap().transmitted_headers.unwrap();
    assert_eq!(snapshot.by_name("x-a"), Some(&"1".to_string()));
}

#[test]
fn no_subscribers_no_capture() {
    let (exchange, _outbound, request_message) = begin_http_exchange(
        "http://upstream/api/graphql".to_string(),
        &headers(vec![]),
        &headers(vec![]),
        obj(vec![("query", s("{a}"))]),
        false,
    );
    assert!(request_message.is_none());
    assert_eq!(exchange.sequence_counter, 1);
    let (_h, response_message) =
        process_server_response(&exchange, headers(vec![]), &headers(vec![]), "{}", false);
    assert!(response_message.is_none());
}

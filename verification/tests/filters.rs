use graphql_proxy::enums::ConnectionType;
use graphql_proxy::enums::FilterType;
use graphql_proxy::enums::MessageDirection;
use graphql_proxy::json::JsonValue;
use graphql_proxy::message::Message;
use graphql_proxy::message_filter::MessageFilter;
use graphql_proxy::message_filter::is_message_allowed_by_filters;
use graphql_proxy::payload_type::PayloadType;

fn obj(pairs: Vec<(&str, JsonValue)>) -> JsonValue {
    JsonValue::Object(pairs.into_iter().map(|(k, v)| (k.to_string(), v)).collect())
}

fn s(text: &str) -> JsonValue {
    JsonValue::String(text.to_string())
}

fn ws_message(direction: MessageDirection, payload: JsonValue) -> Message {
    Message {
        sequence_counter: 0,
        message: payload,
        connection_type: ConnectionType::Ws,
        message_direction: direction,
        connection_id: "connection".to_string(),
        transmitted_headers: None,
        server_endpoint_url: "ws://upstream/api/graphql-ws".to_string(),
    }
}

fn filter(
    filter_type: FilterType,
    connection_type: Option<ConnectionType>,
    message_direction: Option<MessageDirection>,
    payload_type: Option<PayloadType>,
) -> MessageFilter {
    MessageFilter { filter_type, connection_type, message_direction, payload_type }
}

#[test]
fn ws_request_prohibited_response_allowed() {
    // allow:ws,any,any then prohibit:ws,request,any
    let filters = vec![
        filter(FilterType::Allow, Some(ConnectionType::Ws), None, None),
        filter(
            FilterType::Prohibit,
            Some(ConnectionType::Ws),
            Some(MessageDirection::Request),
            None,
        ),
    ];

    let subscribe = ws_message(
        MessageDirection::Request,
        obj(vec![("type", s("subscribe")), ("id", s("1"))]),
    );
    assert!(!is_message_allowed_by_filters(&filters, &subscribe));

    let reply = ws_message(MessageDirection::Response, obj(vec![("type", s("next"))]));
    assert!(is_message_allowed_by_filters(&filters, &reply));
}

#[test]
fn empty_filter_list_allows_everything() {
    let filters: Vec<MessageFilter> = Vec::new();
    let m = ws_message(MessageDirection::Request, JsonValue::Null);
    assert!(is_message_allowed_by_filters(&filters, &m));
}

#[test]
fn last_matching_filter_wins() {
    let m = ws_message(MessageDirection::Request, JsonValue::Null);

    let filters = vec![
        filter(FilterType::Prohibit, None, None, None),
        filter(FilterType::Allow, None, None, None),
    ];
    assert!(is_message_allowed_by_filters(&filters, &m));

    let filters = vec![
        filter(FilterType::Allow, None, None, None),
        filter(FilterType::Prohibit, None, None, None),
    ];
    assert!(!is_message_allowed_by_filters(&filters, &m));

    // A non-matching filter after the decisive one has no influence.
    let filters = vec![
        filter(FilterType::Prohibit, None, None, None),
        filter(FilterType::Allow, Some(ConnectionType::Http), None, None),
    ];
    assert!(!is_message_allowed_by_filters(&filters, &m));
}

#[test]
fn ws_payload_unwraps_one_level() {
    // The inner value under `payload` decides the payload type.
    let m = ws_message(
        MessageDirection::Response,
        obj(vec![
            ("type", s("next")),
            ("payload", obj(vec![("data", obj(vec![]))])),
        ]),
    );
    let filters = vec![filter(
        FilterType::Allow,
        None,
        None,
        Some(PayloadType::OnlyData),
    )];
    assert!(is_message_allowed_by_filters(&filters, &m));

    // Without a `payload` key the message itself is classified.
    let m = ws_message(MessageDirection::Response, obj(vec![("type", s("ping"))]));
    let filters = vec![filter(
        FilterType::Allow,
        None,
        None,
        Some(PayloadType::NonGraphQl),
    )];
    assert!(is_message_allowed_by_filters(&filters, &m));

    // An HTTP message is never unwrapped.
    let mut m = ws_message(
        MessageDirection::Response,
        obj(vec![("payload", obj(vec![("data", obj(vec![]))]))]),
    );
    m.connection_type = ConnectionType::Http;
    let filters = vec![filter(
        FilterType::Allow,
        None,
        None,
        Some(PayloadType::NonGraphQl),
    )];
    assert!(is_message_allowed_by_filters(&filters, &m));
}

#[test]
fn message_getters_expose_the_record() {
    let m = ws_message(MessageDirection::Request, JsonValue::Null);
    assert_eq!(m.sequence_counter(), 0);
    assert_eq!(m.connection_type(), ConnectionType::Ws);
    assert_eq!(m.message_direction(), MessageDirection::Request);
    assert_eq!(m.connection_id(), "connection");
    assert_eq!(m.message(), &JsonValue::Null);
    assert!(m.transmitted_headers().is_none());
    assert_eq!(m.server_endpoint_url(), "ws://upstream/api/graphql-ws");
}

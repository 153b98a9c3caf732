use graphql_proxy::json::JsonValue;
use graphql_proxy::payload_type::PayloadType;

fn obj(pairs: Vec<(&str, JsonValue)>) -> JsonValue {
    JsonValue::Object(pairs.into_iter().map(|(k, v)| (k.to_string(), v)).collect())
}

fn s(text: &str) -> JsonValue {
    JsonValue::String(text.to_string())
}

#[test]
fn test_graphql_request_payload() {}

#[test]
fn test_http_graphql_payload() {
    let query = obj(vec![("query", s("test"))]);
    let data = obj(vec![("data", s("test"))]);
    let partial_data = obj(vec![("data", s("test")), ("errors", s("test"))]);
    let error = obj(vec![("errors", s("test"))]);
    let non_graphql = s("foobar");

    assert_eq!(PayloadType::from_json(&query), PayloadType::Request);
    assert_eq!(PayloadType::from_json(&data), PayloadType::OnlyData);
    assert_eq!(
        PayloadType::from_json(&partial_data),
        PayloadType::PartialDataAndError
    );
    assert_eq!(PayloadType::from_json(&error), PayloadType::OnlyError);
    assert_eq!(
        PayloadType::from_json(&non_graphql),
        PayloadType::NonGraphQl
    );
}

#[test]
fn payload_type_precedence_query_dominates() {
    let all = obj(vec![
        ("query", s("q")),
        ("data", s("d")),
        ("errors", s("e")),
    ]);
    assert_eq!(PayloadType::from_json(&all), PayloadType::Request);

    let empty = obj(vec![]);
    assert_eq!(PayloadType::from_json(&empty), PayloadType::NonGraphQl);

    let null = JsonValue::Null;
    assert_eq!(PayloadType::from_json(&null), PayloadType::NonGraphQl);

    let arr = JsonValue::Array(vec![s("data")]);
    assert_eq!(PayloadType::from_json(&arr), PayloadType::NonGraphQl);
}

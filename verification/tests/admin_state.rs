use graphql_proxy::admin_state::AdminState;
use graphql_proxy::admin_state::ConnectionId;
use graphql_proxy::headers::Header;
use graphql_proxy::headers::Headers;

fn headers(pairs: Vec<(&str, &str)>) -> Headers {
    Headers {
        entries: pairs
            .into_iter()
            .map(|(n, v)| Header { name: n.to_string(), value: v.to_string() })
            .collect(),
    }
}

fn new_state() -> AdminState {
    AdminState::new(
        "http://upstream/api/graphql".to_string(),
        "ws://upstream/api/graphql-ws".to_string(),
        false,
        headers(vec![]),
        headers(vec![]),
    )
}

#[test]
fn set_prohibit_mutation_swaps_and_returns_prior() {
    let mut state = new_state();
    assert!(!state.prohibit_mutation());
    assert!(!state.set_prohibit_mutation(true));
    assert!(state.prohibit_mutation());
    assert!(state.set_prohibit_mutation(true));
    assert!(state.set_prohibit_mutation(false));
    assert!(!state.prohibit_mutation());
}

#[test]
fn set_server_endpoints_swaps_and_returns_prior() {
    let mut state = new_state();
    let prior = state.set_server_endpoints(
        "http://other/api/graphql".to_string(),
        "ws://other/api/graphql-ws".to_string(),
    );
    assert_eq!(prior.graphql_endpoint, "http://upstream/api/graphql");
    assert_eq!(prior.graphql_ws_endpoint, "ws://upstream/api/graphql-ws");
    let now = state.server_graphql_endpoints_read();
    assert_eq!(now.graphql_endpoint, "http://other/api/graphql");
    assert_eq!(now.graphql_ws_endpoint, "ws://other/api/graphql-ws");
}

#[test]
fn header_overlay_mutations() {
    let mut state = new_state();

    // add_* appends without removing a prior same-named entry.
    assert!(state.add_request_header("x-a".to_string(), "1".to_string()));
    assert!(state.add_request_header("x-a".to_string(), "2".to_string()));
    assert_eq!(state.request_headers().all().len(), 2);

    // set_* replaces every entry of the name and returns the first
    // replaced value.
    let replaced = state.set_request_header("X-A".to_string(), "3".to_string());
    assert_eq!(replaced, Some("1".to_string()));
    assert_eq!(state.request_headers().by_name("x-a"), Some(&"3".to_string()));
    assert_eq!(state.request_headers().all().len(), 1);

    // remove_* removes every entry and returns the first removed value.
    assert_eq!(state.remove_request_header("x-a"), Some("3".to_string()));
    assert_eq!(state.remove_request_header("x-a"), None);
    assert!(state.request_headers().all().is_empty());

    assert!(state.add_response_header("x-r".to_string(), "1".to_string()));
    assert_eq!(
        state.set_response_header("x-r".to_string(), "2".to_string()),
        Some("1".to_string())
    );
    assert_eq!(state.remove_response_header("x-r"), Some("2".to_string()));
    assert_eq!(state.remove_response_header("x-r"), None);
}

#[test]
fn connection_id_is_uuid_shaped() {
    let id = ConnectionId::new();
    let text = id.as_arc_string();
    assert_eq!(text.len(), 36);
    assert_eq!(text.as_str(), id.0.as_str());
    for (i, c) in text.chars().enumerate() {
        if i == 8 || i == 13 || i == 18 || i == 23 {
            assert_eq!(c, '-');
        } else {
            assert!(c.is_ascii_hexdigit() && !c.is_ascii_uppercase());
        }
    }
}

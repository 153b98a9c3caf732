//! The HTTP proxy exchange: header preparation, the forward decision,
//! and the two captured messages of a forwarded call.
//!
//! The embedding program drives one exchange in three steps: it begins
//! the exchange before contacting the upstream, asks for the forward
//! decision, and, only when the decision is to forward, processes the
//! upstream response. The contracts pin the two emitted messages to
//! sequence counters 0 and 1 under one connection id.

use vstd::prelude::*;

use crate::admin_state::ConnectionId;
use crate::enums::ConnectionType;
use crate::enums::MessageDirection;
use crate::graphql_query::OperationKind;
use crate::graphql_query::ParsedQuery;
use crate::graphql_query::is_query_of_type;
use crate::graphql_query::lemma_doc_abstracts_wf;
use crate::graphql_query::lemma_doc_selection_matches;
use crate::graphql_query::parse_graphql_query;
use crate::graphql_query::parsed_query;
use crate::graphql_query::spec_selected_operation_is;
use crate::headers::Headers;
use crate::headers::headers_without_names;
use crate::headers::move_and_replace_headers;
use crate::headers::spec_merge;
use crate::headers::spec_retain_allowed;
use crate::headers::spec_str_views;
use crate::json::JsonValue;
use crate::json::parse_json_text;
use crate::json::spec_text_payload_ok;
use crate::message::Message;

verus! {

/// The hop-by-hop names stripped from inbound headers before they are
/// forwarded to the upstream.
pub open spec fn spec_http_request_prohibited_names() -> Seq<Seq<char>> {
    seq!["host"@, "content-length"@, "content-type"@]
}

/// Upstream response headers are copied to the client unfiltered.
pub open spec fn spec_no_prohibited_names() -> Seq<Seq<char>> {
    Seq::empty()
}

/// The executable form of [`spec_http_request_prohibited_names`].
fn http_request_prohibited_names() -> (r: Vec<&'static str>)
    ensures
        spec_str_views(r@) == spec_http_request_prohibited_names(),
{
    let v: Vec<&'static str> = vec!["host", "content-length", "content-type"];
    proof {
        assert(spec_str_views(v@) =~= spec_http_request_prohibited_names());
    }
    v
}

/// The executable form of [`spec_no_prohibited_names`].
fn no_prohibited_names() -> (r: Vec<&'static str>)
    ensures
        spec_str_views(r@) == spec_no_prohibited_names(),
{
    let v: Vec<&'static str> = Vec::new();
    proof {
        assert(spec_str_views(v@) =~= spec_no_prohibited_names());
    }
    v
}

/// One proxied HTTP exchange: its connection id, the next sequence
/// counter, and the upstream URL snapshotted when it began.
#[derive(Debug)]
pub struct HttpExchange {
    pub connection_id: ConnectionId,
    pub sequence_counter: u64,
    pub server_endpoint_url: String,
}

/// Begins an exchange: mints a connection id, builds the outbound
/// header set (inbound headers minus the hop-by-hop names, then the
/// admin overlay), and captures the request message when the bus has
/// subscribers. The request message takes sequence counter 0 and the
/// exchange continues at 1.
pub fn begin_http_exchange(
    server_endpoint_url: String,
    inbound_headers: &Headers,
    request_header_overlay: &Headers,
    request_body: JsonValue,
    has_subscribers: bool,
) -> (r: (HttpExchange, Headers, Option<Message>))
    ensures
        r.0.sequence_counter == 1,
        r.0.server_endpoint_url == server_endpoint_url,
        r.1@ == spec_merge(
            spec_retain_allowed(inbound_headers@, spec_http_request_prohibited_names()),
            request_header_overlay@,
            spec_no_prohibited_names(),
        ),
        (r.2 is Some) == has_subscribers,
        (r.2 matches Some(m) ==> {
            &&& m.sequence_counter == 0
            &&& m.connection_type is Http
            &&& m.message_direction is Request
            &&& m.connection_id@ == r.0.connection_id@
            &&& m.message == request_body
            &&& (m.transmitted_headers matches Some(h) && h@ == r.1@)
            &&& m.server_endpoint_url == r.0.server_endpoint_url
        }),
{
    let connection_id = ConnectionId::new();
    let prohibited = http_request_prohibited_names();
    let mut outbound = headers_without_names(inbound_headers, &prohibited);
    let mut overlay = request_header_overlay.clone();
    let unrestricted = no_prohibited_names();
    move_and_replace_headers(&mut outbound, &mut overlay, &unrestricted);
    let message = if has_subscribers {
        Some(
            Message {
                connection_id: connection_id.0.clone(),
                message: request_body,
                sequence_counter: 0,
                connection_type: ConnectionType::Http,
                message_direction: MessageDirection::Request,
                transmitted_headers: Some(outbound.clone()),
                server_endpoint_url: server_endpoint_url.clone(),
            },
        )
    } else {
        None
    };
    let exchange = HttpExchange { connection_id, sequence_counter: 1, server_endpoint_url };
    (exchange, outbound, message)
}

/// What the proxy does with a validated request: forward it, reject it
/// with the query's parse error, or reject it because the mutation
/// prohibition flag is set.
#[derive(Debug)]
pub enum ForwardDecision {
    Forward,
    ParseError(String),
    MutationProhibited,
}

/// How a decision relates to the request: a parse failure is reported
/// with the parser's message; a parsed request whose selected
/// operation is a mutation is rejected exactly when mutations are
/// prohibited;
/// everything else is forwarded.
pub open spec fn spec_decision_obeys(
    query: Seq<char>,
    operation_name: Option<Seq<char>>,
    prohibit_mutation: bool,
    r: ForwardDecision,
) -> bool {
    let p = parsed_query(query);
    &&& ((r is ParseError) <==> p is Invalid)
    &&& (r matches ForwardDecision::ParseError(e) ==> p matches ParsedQuery::Invalid(t) && e@
        == t)
    &&& ((r is MutationProhibited) <==> (!(p is Invalid) && prohibit_mutation
        && spec_selected_operation_is(p, operation_name, OperationKind::Mutation)))
    &&& ((r is Forward) <==> (!(p is Invalid) && !(prohibit_mutation
        && spec_selected_operation_is(p, operation_name, OperationKind::Mutation))))
}

/// Decides whether a request is forwarded: parses the query and holds
/// the selected operation against the mutation prohibition.
pub fn decide_forward(
    query: &str,
    operation_name: Option<&String>,
    prohibit_mutation: bool,
) -> (r: ForwardDecision)
    ensures
        spec_decision_obeys(
            query@,
            match operation_name {
                Some(s) => Some(s@),
                None => None,
            },
            prohibit_mutation,
            r,
        ),
{
    match parse_graphql_query(query) {
        Err(e) => ForwardDecision::ParseError(e),
        Ok(document) => {
            proof {
                lemma_doc_abstracts_wf(document, parsed_query(query@));
                lemma_doc_selection_matches(
                    document,
                    parsed_query(query@),
                    match operation_name {
                        Some(s) => Some(s@),
                        None => None,
                    },
                    OperationKind::Mutation,
                );
            }
            if prohibit_mutation && is_query_of_type(
                operation_name,
                &document,
                OperationKind::Mutation,
            ) {
                ForwardDecision::MutationProhibited
            } else {
                ForwardDecision::Forward
            }
        },
    }
}

/// Ends a forwarded exchange: builds the client-facing header set
/// (upstream response headers, then the admin overlay) and captures
/// the response message when the bus has subscribers. The response
/// payload is the body parsed as JSON, or the raw text as a JSON
/// string.
pub fn process_server_response(
    exchange: &HttpExchange,
    upstream_response_headers: Headers,
    response_header_overlay: &Headers,
    body_text: &str,
    has_subscribers: bool,
) -> (r: (Headers, Option<Message>))
    ensures
        r.0@ == spec_merge(
            spec_merge(
                Seq::<crate::headers::Header>::empty(),
                upstream_response_headers@,
                spec_no_prohibited_names(),
            ),
            response_header_overlay@,
            spec_no_prohibited_names(),
        ),
        (r.1 is Some) == has_subscribers,
        (r.1 matches Some(m) ==> {
            &&& m.sequence_counter == exchange.sequence_counter
            &&& m.connection_type is Http
            &&& m.message_direction is Response
            &&& m.connection_id@ == exchange.connection_id@
            &&& spec_text_payload_ok(m.message, body_text@)
            &&& (m.transmitted_headers matches Some(h) && h@ == r.0@)
            &&& m.server_endpoint_url == exchange.server_endpoint_url
        }),
{
    let mut client_headers = Headers::new();
    let mut upstream = upstream_response_headers;
    let unrestricted = no_prohibited_names();
    move_and_replace_headers(&mut client_headers, &mut upstream, &unrestricted);
    let mut overlay = response_header_overlay.clone();
    let unrestricted_again = no_prohibited_names();
    move_and_replace_headers(&mut client_headers, &mut overlay, &unrestricted_again);
    let message = if has_subscribers {
        let payload = match parse_json_text(body_text) {
            Some(j) => j,
            None => JsonValue::String(String::from_str(body_text)),
        };
        Some(
            Message {
                connection_id: exchange.connection_id.0.clone(),
                message: payload,
                sequence_counter: exchange.sequence_counter,
                connection_type: ConnectionType::Http,
                message_direction: MessageDirection::Response,
                transmitted_headers: Some(client_headers.clone()),
                server_endpoint_url: exchange.server_endpoint_url.clone(),
            },
        )
    } else {
        None
    };
    (client_headers, message)
}

/// Whether a payload is the GraphQL-shaped error response the proxy
/// returns without contacting the upstream: an object holding one
/// `errors` array with one entry whose `message` is the given text.
pub open spec fn spec_graphql_error_body(payload: JsonValue, message: Seq<char>) -> bool {
    &&& payload matches JsonValue::Object(members)
    &&& members@.len() == 1
    &&& members@[0].0@ == "errors"@
    &&& (members@[0].1 matches JsonValue::Array(items) && items@.len() == 1 && (items@[0] matches
        JsonValue::Object(inner) && inner@.len() == 1 && inner@[0].0@ == "message"@ && (
        inner@[0].1 matches JsonValue::String(s) && s@ == message)))
}

/// Builds the GraphQL-shaped error body for a rejected or failed call.
pub fn graphql_error_body(message: &str) -> (r: JsonValue)
    ensures
        spec_graphql_error_body(r, message@),
{
    let mut inner: Vec<(String, JsonValue)> = Vec::new();
    inner.push(
        (String::from_str("message"), JsonValue::String(String::from_str(message))),
    );
    let mut items: Vec<JsonValue> = Vec::new();
    items.push(JsonValue::Object(inner));
    let mut members: Vec<(String, JsonValue)> = Vec::new();
    members.push((String::from_str("errors"), JsonValue::Array(items)));
    JsonValue::Object(members)
}

/// The error text of a call rejected by the mutation prohibition.
pub fn mutation_prohibited_message() -> (r: String)
    ensures
        r@ == "Mutations are set to be prohibited"@,
{
    String::from_str("Mutations are set to be prohibited")
}

/// A forwarded exchange emits exactly two messages: the request at
/// sequence counter 0 and the response at 1, under one connection id.
/// The hypotheses are the facts [`begin_http_exchange`] and
/// [`process_server_response`] give of their messages.
pub proof fn lemma_http_exchange_message_pair(ex: HttpExchange, m1: Message, m2: Message)
    requires
        m1.sequence_counter == 0,
        m1.message_direction is Request,
        m1.connection_id@ == ex.connection_id@,
        ex.sequence_counter == 1,
        m2.sequence_counter == ex.sequence_counter,
        m2.message_direction is Response,
        m2.connection_id@ == ex.connection_id@,
    ensures
        m1.connection_id@ == m2.connection_id@,
        m1.sequence_counter == 0,
        m2.sequence_counter == 1,
{
}

/// The mutation prohibition: when it is on and the request's selected
/// operation is a mutation, the decision is never to forward, so the
/// upstream is not contacted and no response message can follow the
/// initial request message.
pub proof fn lemma_mutation_prohibition(
    query: Seq<char>,
    operation_name: Option<Seq<char>>,
    r: ForwardDecision,
)
    requires
        spec_decision_obeys(query, operation_name, true, r),
        !(parsed_query(query) is Invalid),
        spec_selected_operation_is(parsed_query(query), operation_name, OperationKind::Mutation),
    ensures
        r is MutationProhibited,
        !(r is Forward),
{
}

} // verus!

//! The WebSocket proxy session: upgrade-time header preparation, the
//! two synthetic upgrade messages, and the mirroring of frames onto
//! the bus with a per-session sequence counter.

use vstd::prelude::*;

use crate::admin_state::ConnectionId;
use crate::enums::ConnectionType;
use crate::enums::MessageDirection;
use crate::headers::Headers;
use crate::headers::move_and_replace_headers;
use crate::headers::spec_merge;
use crate::headers::spec_str_views;
use crate::json::JsonValue;
use crate::json::parse_json_text;
use crate::json::spec_text_payload_ok;
use crate::message::Message;

verus! {

/// The names stripped from inbound headers before the upstream
/// upgrade request is sent.
pub open spec fn spec_ws_request_prohibited_names() -> Seq<Seq<char>> {
    seq![
        "host"@,
        "content-length"@,
        "connection"@,
        "upgrade"@,
        "sec-websocket-key"@,
        "sec-websocket-version"@,
    ]
}

/// The names stripped from the upstream's upgrade response before it
/// is copied onto the client's upgrade response. The client's own
/// handshake carries these, the subprotocol among them, so the
/// upstream's copies must not overwrite them.
pub open spec fn spec_ws_response_prohibited_names() -> Seq<Seq<char>> {
    seq![
        "host"@,
        "content-length"@,
        "connection"@,
        "upgrade"@,
        "sec-websocket-key"@,
        "sec-websocket-extensions"@,
        "sec-websocket-version"@,
        "sec-websocket-accept"@,
        "sec-websocket-protocol"@,
    ]
}

/// The executable form of [`spec_ws_request_prohibited_names`].
fn ws_request_prohibited_names() -> (r: Vec<&'static str>)
    ensures
        spec_str_views(r@) == spec_ws_request_prohibited_names(),
{
    let v: Vec<&'static str> = vec![
        "host",
        "content-length",
        "connection",
        "upgrade",
        "sec-websocket-key",
        "sec-websocket-version",
    ];
    proof {
        assert(spec_str_views(v@) =~= spec_ws_request_prohibited_names());
    }
    v
}

/// The executable form of [`spec_ws_response_prohibited_names`].
fn ws_response_prohibited_names() -> (r: Vec<&'static str>)
    ensures
        spec_str_views(r@) == spec_ws_response_prohibited_names(),
{
    let v: Vec<&'static str> = vec![
        "host",
        "content-length",
        "connection",
        "upgrade",
        "sec-websocket-key",
        "sec-websocket-extensions",
        "sec-websocket-version",
        "sec-websocket-accept",
        "sec-websocket-protocol",
    ];
    proof {
        assert(spec_str_views(v@) =~= spec_ws_response_prohibited_names());
    }
    v
}

/// The executable form of an empty prohibition list.
fn no_prohibited_names() -> (r: Vec<&'static str>)
    ensures
        spec_str_views(r@) == Seq::<Seq<char>>::empty(),
{
    let v: Vec<&'static str> = Vec::new();
    proof {
        assert(spec_str_views(v@) =~= Seq::<Seq<char>>::empty());
    }
    v
}

/// One tunnelled WebSocket session: its connection id, the next
/// sequence counter, and the upstream URL snapshotted at upgrade.
#[derive(Debug)]
pub struct WsSession {
    pub connection_id: ConnectionId,
    pub sequence_counter: u64,
    pub server_endpoint_url: String,
}

/// A frame travelling through the tunnel, as far as mirroring cares:
/// text and binary frames are mirrored, the control frames only
/// forwarded.
#[derive(Debug)]
pub enum WsFrame {
    Text(String),
    Binary(Vec<u8>),
    Ping(Vec<u8>),
    Pong(Vec<u8>),
    Close,
}

/// Relies on `String::push`: appends one character.
pub assume_specification[ std::string::String::push ](s: &mut std::string::String, ch: char)
    ensures
        final(s)@ == old(s)@.push(ch),
;

/// The character of a decimal digit.
pub open spec fn spec_digit_char(d: u8) -> char {
    ((d + 48) as u8) as char
}

/// The decimal text of a byte, without leading zeros.
pub open spec fn spec_u8_decimal(b: u8) -> Seq<char> {
    if b < 10 {
        seq![spec_digit_char(b)]
    } else if b < 100 {
        seq![spec_digit_char(b / 10), spec_digit_char(b % 10)]
    } else {
        seq![spec_digit_char(b / 100), spec_digit_char((b / 10) % 10), spec_digit_char(b % 10)]
    }
}

/// Prints a byte in decimal.
fn u8_to_decimal_string(b: u8) -> (r: String)
    ensures
        r@ == spec_u8_decimal(b),
{
    let mut s = String::new();
    if b >= 100 {
        s.push(((b / 100) + 48) as char);
    }
    if b >= 10 {
        s.push((((b / 10) % 10) + 48) as char);
    }
    s.push(((b % 10) + 48) as char);
    proof {
        assert(s@ =~= spec_u8_decimal(b));
    }
    s
}

/// Whether a list of JSON values is the byte list printed in decimal.
pub open spec fn spec_byte_array_items(items: Seq<JsonValue>, bytes: Seq<u8>) -> bool {
    &&& items.len() == bytes.len()
    &&& forall|i: int|
        0 <= i < items.len() ==> (#[trigger] items[i] matches JsonValue::Number(s) && s@
            == spec_u8_decimal(bytes[i]))
}

/// Builds the JSON array of byte integers a binary frame is mirrored
/// as.
fn bytes_to_json_items(bytes: &Vec<u8>) -> (r: Vec<JsonValue>)
    ensures
        spec_byte_array_items(r@, bytes@),
{
    let n = bytes.len();
    let mut items: Vec<JsonValue> = Vec::new();
    let mut i: usize = 0;
    while i < n
        invariant
            i <= n,
            n == bytes@.len(),
            items@.len() == i,
            forall|j: int|
                0 <= j < i ==> (#[trigger] items@[j] matches JsonValue::Number(s) && s@
                    == spec_u8_decimal(bytes@[j])),
        decreases n - i,
    {
        items.push(JsonValue::Number(u8_to_decimal_string(bytes[i])));
        i = i + 1;
    }
    items
}

/// Whether a payload is what a mirrored frame carries: text parsed as
/// JSON (or kept as a JSON string), or a binary body as an array of
/// byte integers.
pub open spec fn spec_frame_payload_ok(payload: JsonValue, frame: WsFrame) -> bool {
    match frame {
        WsFrame::Text(s) => spec_text_payload_ok(payload, s@),
        WsFrame::Binary(b) => payload matches JsonValue::Array(items) && spec_byte_array_items(
            items@,
            b@,
        ),
        _ => false,
    }
}

/// Whether mirroring a frame emits a message: only text and binary
/// frames are mirrored, and only while the bus has subscribers.
pub open spec fn spec_frame_mirrored(frame: WsFrame, has_subscribers: bool) -> bool {
    has_subscribers && (frame is Text || frame is Binary)
}

/// Begins a session: mints a connection id, builds the upstream
/// upgrade header set (the handshake headers, the inbound headers
/// minus the hop-by-hop names, then the admin overlay), and emits the
/// synthetic request message that makes the initiation observable.
/// The message takes sequence counter 0 and the session continues at
/// 1.
pub fn begin_ws_session(
    server_endpoint_url: String,
    upstream_handshake_headers: Headers,
    inbound_headers: Headers,
    request_header_overlay: &Headers,
) -> (r: (WsSession, Headers, Message))
    ensures
        r.0.sequence_counter == 1,
        r.0.server_endpoint_url == server_endpoint_url,
        r.1@ == spec_merge(
            spec_merge(
                upstream_handshake_headers@,
                inbound_headers@,
                spec_ws_request_prohibited_names(),
            ),
            request_header_overlay@,
            Seq::<Seq<char>>::empty(),
        ),
        r.2.sequence_counter == 0,
        r.2.connection_type is Ws,
        r.2.message_direction is Request,
        r.2.connection_id@ == r.0.connection_id@,
        r.2.message is Null,
        (r.2.transmitted_headers matches Some(h) && h@ == r.1@),
        r.2.server_endpoint_url == r.0.server_endpoint_url,
{
    let connection_id = ConnectionId::new();
    let mut outbound = upstream_handshake_headers;
    let mut inbound = inbound_headers;
    let prohibited = ws_request_prohibited_names();
    move_and_replace_headers(&mut outbound, &mut inbound, &prohibited);
    let mut overlay = request_header_overlay.clone();
    let unrestricted = no_prohibited_names();
    move_and_replace_headers(&mut outbound, &mut overlay, &unrestricted);
    let message = Message {
        connection_id: connection_id.0.clone(),
        message: JsonValue::Null,
        sequence_counter: 0,
        connection_type: ConnectionType::Ws,
        message_direction: MessageDirection::Request,
        transmitted_headers: Some(outbound.clone()),
        server_endpoint_url: server_endpoint_url.clone(),
    };
    let session = WsSession { connection_id, sequence_counter: 1, server_endpoint_url };
    (session, outbound, message)
}

impl WsSession {
    /// Completes the upgrade: builds the client-facing upgrade header
    /// set (the generated upgrade headers, the upstream's response
    /// headers minus the handshake names, then the admin overlay) and
    /// emits the synthetic response message with the next counter.
    pub fn on_upgrade_response(
        &mut self,
        client_upgrade_headers: Headers,
        upstream_response_headers: Headers,
        response_header_overlay: &Headers,
    ) -> (r: (Headers, Message))
        requires
            old(self).sequence_counter < u64::MAX,
        ensures
            final(self).sequence_counter == old(self).sequence_counter + 1,
            final(self).connection_id == old(self).connection_id,
            final(self).server_endpoint_url == old(self).server_endpoint_url,
            r.0@ == spec_merge(
                spec_merge(
                    client_upgrade_headers@,
                    upstream_response_headers@,
                    spec_ws_response_prohibited_names(),
                ),
                response_header_overlay@,
                Seq::<Seq<char>>::empty(),
            ),
            r.1.sequence_counter == old(self).sequence_counter,
            r.1.connection_type is Ws,
            r.1.message_direction is Response,
            r.1.connection_id@ == old(self).connection_id@,
            r.1.message is Null,
            (r.1.transmitted_headers matches Some(h) && h@ == r.0@),
            r.1.server_endpoint_url == old(self).server_endpoint_url,
    {
        let mut outbound = client_upgrade_headers;
        let mut upstream = upstream_response_headers;
        let prohibited = ws_response_prohibited_names();
        move_and_replace_headers(&mut outbound, &mut upstream, &prohibited);
        let mut overlay = response_header_overlay.clone();
        let unrestricted = no_prohibited_names();
        move_and_replace_headers(&mut outbound, &mut overlay, &unrestricted);
        let message = Message {
            connection_id: self.connection_id.0.clone(),
            message: JsonValue::Null,
            sequence_counter: self.sequence_counter,
            connection_type: ConnectionType::Ws,
            message_direction: MessageDirection::Response,
            transmitted_headers: Some(outbound.clone()),
            server_endpoint_url: self.server_endpoint_url.clone(),
        };
        self.sequence_counter = self.sequence_counter + 1;
        (outbound, message)
    }

    /// Mirrors one tunnelled frame: a text frame's body is parsed as
    /// JSON or kept as a JSON string, a binary frame becomes an array
    /// of byte integers, and control frames pass without a message.
    /// An emitted message takes the session's counter, which then
    /// advances; nothing is emitted, and the counter holds, while the
    /// bus has no subscribers.
    pub fn mirror_frame(
        &mut self,
        frame: &WsFrame,
        message_direction: MessageDirection,
        has_subscribers: bool,
    ) -> (r: Option<Message>)
        requires
            old(self).sequence_counter < u64::MAX,
        ensures
            final(self).connection_id == old(self).connection_id,
            final(self).server_endpoint_url == old(self).server_endpoint_url,
            (r is Some) == spec_frame_mirrored(*frame, has_subscribers),
            (r is Some ==> final(self).sequence_counter == old(self).sequence_counter + 1),
            (r is None ==> final(self).sequence_counter == old(self).sequence_counter),
            (r matches Some(m) ==> {
                &&& m.sequence_counter == old(self).sequence_counter
                &&& m.connection_type is Ws
                &&& m.message_direction == message_direction
                &&& m.connection_id@ == old(self).connection_id@
                &&& spec_frame_payload_ok(m.message, *frame)
                &&& m.transmitted_headers is None
                &&& m.server_endpoint_url == old(self).server_endpoint_url
            }),
    {
        if !has_subscribers {
            return None;
        }
        let payload = match frame {
            WsFrame::Text(text) => {
                match parse_json_text(text.as_str()) {
                    Some(j) => j,
                    None => JsonValue::String(text.clone()),
                }
            },
            WsFrame::Binary(bytes) => JsonValue::Array(bytes_to_json_items(bytes)),
            _ => {
                return None;
            },
        };
        let message = Message {
            connection_id: self.connection_id.0.clone(),
            message: payload,
            sequence_counter: self.sequence_counter,
            connection_type: ConnectionType::Ws,
            message_direction,
            transmitted_headers: None,
            server_endpoint_url: self.server_endpoint_url.clone(),
        };
        self.sequence_counter = self.sequence_counter + 1;
        Some(message)
    }
}

/// One observed step of a session: the state before, the state after,
/// and what the step emitted.
pub struct WsStep {
    pub before: WsSession,
    pub after: WsSession,
    pub emitted: Option<Message>,
}

/// What every emitting operation of a session guarantees: an emitted
/// message takes the counter before the step and the counter then
/// advances by one; a silent step leaves it unchanged.
pub open spec fn spec_step_obeys(step: WsStep) -> bool {
    match step.emitted {
        Some(m) => m.sequence_counter == step.before.sequence_counter
            && step.after.sequence_counter == step.before.sequence_counter + 1,
        None => step.after.sequence_counter == step.before.sequence_counter,
    }
}

/// A session trace: every step obeys the counter discipline and each
/// step starts where the previous one ended.
pub open spec fn spec_trace_wf(steps: Seq<WsStep>) -> bool {
    &&& forall|i: int| 0 <= i < steps.len() ==> spec_step_obeys(#[trigger] steps[i])
    &&& forall|i: int| 0 <= i < steps.len() - 1 ==> #[trigger] steps[i + 1].before
        == steps[i].after
}

/// The counter never falls along a trace.
proof fn lemma_trace_counter_monotone(steps: Seq<WsStep>, k: int, l: int)
    requires
        spec_trace_wf(steps),
        0 <= k <= l < steps.len(),
    ensures
        steps[l].before.sequence_counter >= steps[k].before.sequence_counter,
        k < l ==> steps[l].before.sequence_counter >= steps[k].after.sequence_counter,
    decreases l - k,
{
    if k < l {
        lemma_trace_counter_monotone(steps, k, l - 1);
        assert(steps[(l - 1) + 1].before == steps[l - 1].after);
        assert(spec_step_obeys(steps[l - 1]));
        assert(spec_step_obeys(steps[k]));
    }
}

/// Within one session the emitted sequence counters strictly increase
/// in emission order: a message emitted at an earlier step carries a
/// smaller counter than one emitted later. Both directions of the
/// tunnel advance one shared counter, so this holds for the
/// interleaved trace and in particular for each direction alone.
pub proof fn lemma_ws_counters_strictly_increase(steps: Seq<WsStep>, i: int, j: int)
    requires
        spec_trace_wf(steps),
        0 <= i < j < steps.len(),
        steps[i].emitted is Some,
        steps[j].emitted is Some,
    ensures
        steps[i].emitted->Some_0.sequence_counter < steps[j].emitted->Some_0.sequence_counter,
{
    lemma_trace_counter_monotone(steps, i, j);
    assert(spec_step_obeys(steps[i]));
    assert(spec_step_obeys(steps[j]));
}

} // verus!

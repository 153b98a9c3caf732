//! Message filters: matching, the per-filter verdict, and the fold
//! that turns a filter list into one allow decision.

use vstd::prelude::*;

use crate::enums::ConnectionType;
use crate::enums::FilterType;
use crate::enums::MessageDirection;
use crate::headers::spec_lower;
use crate::headers::str_eq_ignore_case;
use crate::json::JsonValue;
use crate::json::spec_get_key;
use crate::message::Message;
use crate::payload_type::PayloadType;
use crate::payload_type::spec_payload_type;

verus! {

/// One filter: unset discriminators match any value.
#[derive(Debug, Clone, Copy, PartialEq, Eq)]
pub struct MessageFilter {
    pub filter_type: FilterType,
    pub connection_type: Option<ConnectionType>,
    pub message_direction: Option<MessageDirection>,
    pub payload_type: Option<PayloadType>,
}

/// The payload a filter inspects: WebSocket messages unwrap one level,
/// to the value under a top-level `payload` key when there is one.
pub open spec fn spec_filter_payload(m: Message) -> JsonValue {
    match m.connection_type {
        ConnectionType::Http => m.message,
        ConnectionType::Ws => match spec_get_key(m.message, "payload"@) {
            Some(inner) => inner,
            None => m.message,
        },
    }
}

/// Whether every set discriminator of the filter equals the message's
/// attribute.
pub open spec fn spec_is_matching(f: MessageFilter, m: Message) -> bool {
    &&& (f.connection_type matches Some(ct) ==> m.connection_type == ct)
    &&& (f.message_direction matches Some(d) ==> m.message_direction == d)
    &&& (f.payload_type matches Some(pt) ==> spec_payload_type(spec_filter_payload(m)) == pt)
}

/// The verdict of one filter: `None` when it does not match, otherwise
/// whether its kind allows the message.
pub open spec fn spec_filter_verdict(f: MessageFilter, m: Message) -> Option<bool> {
    if spec_is_matching(f, m) {
        Some(f.filter_type is Allow)
    } else {
        None
    }
}

/// The fold over a filter list: the decision starts allowed and each
/// matching filter overwrites it, so the last matching filter wins.
pub open spec fn spec_allow_decision(filters: Seq<MessageFilter>, m: Message) -> bool
    decreases filters.len(),
{
    if filters.len() == 0 {
        true
    } else {
        match spec_filter_verdict(filters.last(), m) {
            Some(b) => b,
            None => spec_allow_decision(filters.drop_last(), m),
        }
    }
}

impl MessageFilter {
    /// Whether every set discriminator equals the message's attribute.
    pub fn is_message_matching(&self, message: &Message) -> (r: bool)
        ensures
            r == spec_is_matching(*self, *message),
    {
        if let Some(connection_type) = self.connection_type {
            if message.connection_type != connection_type {
                return false;
            }
        }
        if let Some(message_direction) = self.message_direction {
            if message.message_direction != message_direction {
                return false;
            }
        }
        if let Some(payload_type) = self.payload_type {
            let payload = match message.connection_type {
                ConnectionType::Http => &message.message,
                ConnectionType::Ws => match message.message.get_key("payload") {
                    Some(inner) => inner,
                    None => &message.message,
                },
            };
            if PayloadType::from_json(payload) != payload_type {
                return false;
            }
        }
        true
    }

    /// This filter's verdict on the message: `None` when it does not
    /// match, otherwise whether its kind allows the message.
    pub fn is_message_allowed(&self, message: &Message) -> (r: Option<bool>)
        ensures
            r == spec_filter_verdict(*self, *message),
    {
        let is_matching = self.is_message_matching(message);
        if is_matching {
            match self.filter_type {
                FilterType::Allow => Some(is_matching),
                FilterType::Prohibit => Some(!is_matching),
            }
        } else {
            None
        }
    }
}

/// Folds a filter list over a message: the decision starts allowed and
/// each matching filter overwrites it with its own kind.
pub fn is_message_allowed_by_filters(filters: &Vec<MessageFilter>, message: &Message) -> (r:
    bool)
    ensures
        r == spec_allow_decision(filters@, *message),
{
    let n = filters.len();
    let mut allowed = true;
    let mut i: usize = 0;
    while i < n
        invariant
            i <= n,
            n == filters@.len(),
            allowed == spec_allow_decision(filters@.take(i as int), *message),
        decreases n - i,
    {
        proof {
            assert(filters@.take(i + 1).drop_last() =~= filters@.take(i as int));
            assert(filters@.take(i + 1).last() == filters@[i as int]);
        }
        if let Some(a) = filters[i].is_message_allowed(message) {
            allowed = a;
        }
        i = i + 1;
    }
    proof {
        assert(filters@.take(n as int) =~= filters@);
    }
    allowed
}

/// When no filter in the list matches the message, the decision is to
/// allow it.
pub proof fn lemma_allow_decision_no_match(filters: Seq<MessageFilter>, m: Message)
    requires
        forall|j: int| 0 <= j < filters.len() ==> !spec_is_matching(filters[j], m),
    ensures
        spec_allow_decision(filters, m),
    decreases filters.len(),
{
    if filters.len() > 0 {
        lemma_allow_decision_no_match(filters.drop_last(), m);
    }
}

/// The decision over a filter list equals the kind of the last filter
/// that matches the message: position `i` matches and none after it
/// does, so the fold returns what filter `i` says.
pub proof fn lemma_allow_decision_is_last_match(filters: Seq<MessageFilter>, m: Message, i: int)
    requires
        0 <= i < filters.len(),
        spec_is_matching(filters[i], m),
        forall|j: int| i < j < filters.len() ==> !spec_is_matching(filters[j], m),
    ensures
        spec_allow_decision(filters, m) == (filters[i].filter_type is Allow),
    decreases filters.len(),
{
    if i == filters.len() - 1 {
    } else {
        lemma_allow_decision_is_last_match(filters.drop_last(), m, i);
    }
}

/// The first position of the character at or after `from`.
pub open spec fn spec_find_char(s: Seq<char>, c: char, from: int) -> Option<int>
    decreases s.len() - from,
{
    if from < 0 || from >= s.len() {
        None
    } else if s[from] == c {
        Some(from)
    } else {
        spec_find_char(s, c, from + 1)
    }
}

/// Finds the first position of the character at or after `from`.
fn find_char(s: &str, c: char, from: usize) -> (r: Option<usize>)
    requires
        from <= s@.len(),
    ensures
        match r {
            Some(i) => from <= i < s@.len() && s@[i as int] == c && spec_find_char(
                s@,
                c,
                from as int,
            ) == Some(i as int),
            None => spec_find_char(s@, c, from as int) is None,
        },
{
    let n = s.unicode_len();
    let mut i: usize = from;
    while i < n
        invariant
            from <= i <= n,
            n == s@.len(),
            spec_find_char(s@, c, from as int) == spec_find_char(s@, c, i as int),
        decreases n - i,
    {
        if s.get_char(i) == c {
            return Some(i);
        }
        i = i + 1;
    }
    None
}

/// Whether the token is the wildcard `any`, compared without regard to
/// ASCII case.
pub open spec fn spec_is_any(tok: Seq<char>) -> bool {
    spec_lower(tok) == spec_lower("any"@)
}

/// The filter kind a token names, compared without regard to case.
pub open spec fn spec_parse_filter_type(tok: Seq<char>) -> Option<FilterType> {
    if spec_lower(tok) == spec_lower("allow"@) {
        Some(FilterType::Allow)
    } else if spec_lower(tok) == spec_lower("prohibit"@) {
        Some(FilterType::Prohibit)
    } else {
        None
    }
}

/// The connection type a token names, compared without regard to case.
pub open spec fn spec_parse_connection_type(tok: Seq<char>) -> Option<ConnectionType> {
    if spec_lower(tok) == spec_lower("http"@) {
        Some(ConnectionType::Http)
    } else if spec_lower(tok) == spec_lower("ws"@) {
        Some(ConnectionType::Ws)
    } else {
        None
    }
}

/// The direction a token names, compared without regard to case.
pub open spec fn spec_parse_message_direction(tok: Seq<char>) -> Option<MessageDirection> {
    if spec_lower(tok) == spec_lower("request"@) {
        Some(MessageDirection::Request)
    } else if spec_lower(tok) == spec_lower("response"@) {
        Some(MessageDirection::Response)
    } else {
        None
    }
}

/// The payload type a token names, compared without regard to case.
pub open spec fn spec_parse_payload_type(tok: Seq<char>) -> Option<PayloadType> {
    if spec_lower(tok) == spec_lower("request"@) {
        Some(PayloadType::Request)
    } else if spec_lower(tok) == spec_lower("only-data"@) {
        Some(PayloadType::OnlyData)
    } else if spec_lower(tok) == spec_lower("only-error"@) {
        Some(PayloadType::OnlyError)
    } else if spec_lower(tok) == spec_lower(
        "partial-data-and-error"@,
    ) {
        Some(PayloadType::PartialDataAndError)
    } else if spec_lower(tok) == spec_lower("non-graph-ql"@) {
        Some(PayloadType::NonGraphQl)
    } else {
        None
    }
}

pub open spec fn spec_filter_type_variants_message() -> Seq<char> {
    "<filter-type> variants: [allow, prohibit]"@
}

pub open spec fn spec_connection_type_variants_message() -> Seq<char> {
    "<connection-type> variants: [http, ws]"@
}

pub open spec fn spec_message_direction_variants_message() -> Seq<char> {
    "<message-direction> variants: [request, response]"@
}

pub open spec fn spec_payload_type_variants_message() -> Seq<char> {
    "<payload-type> variants: [request, only-data, only-error, partial-data-and-error, non-graph-ql]"@
}

/// The one-line error for a shape that does not fit the grammar.
pub open spec fn spec_error_message() -> Seq<char> {
    "Invalid message filter format. Expected <filter_type>:<connection-type>,<message-direction>,<payload-type>"@
        + "; "@ + spec_filter_type_variants_message() + "; "@
        + spec_connection_type_variants_message() + "; "@
        + spec_message_direction_variants_message() + "; "@
        + spec_payload_type_variants_message()
}

/// The error for a slot token that names no variant.
pub open spec fn spec_invalid_variant_message(tok: Seq<char>, variants: Seq<char>) -> Seq<char> {
    "invalid variant: "@ + tok + ", "@ + variants
}

/// What [`MessageFilterCliParser::try_parse`] yields on this text:
/// `<filter_type>:<connection-type>,<message-direction>,<payload-type>`
/// with `any` as a wildcard in the three slots after the colon. Each
/// slot is validated in reading order, so a bad token reports its own
/// variants before a later missing slot reports the grammar.
pub open spec fn spec_try_parse(s: Seq<char>) -> Result<MessageFilter, Seq<char>> {
    match spec_find_char(s, ':', 0) {
        None => Err(spec_error_message()),
        Some(c) => {
            let ft_tok = s.take(c);
            match spec_parse_filter_type(ft_tok) {
                None => Err(
                    spec_invalid_variant_message(ft_tok, spec_filter_type_variants_message()),
                ),
                Some(filter_type) => {
                    let comma1 = spec_find_char(s, ',', c + 1);
                    let ct_end = match comma1 {
                        Some(x) => x,
                        None => s.len() as int,
                    };
                    let ct_tok = s.subrange(c + 1, ct_end);
                    if !spec_is_any(ct_tok) && spec_parse_connection_type(ct_tok) is None {
                        Err(
                            spec_invalid_variant_message(
                                ct_tok,
                                spec_connection_type_variants_message(),
                            ),
                        )
                    } else {
                        let connection_type = if spec_is_any(ct_tok) {
                            None
                        } else {
                            spec_parse_connection_type(ct_tok)
                        };
                        match comma1 {
                            None => Err(spec_error_message()),
                            Some(c1) => {
                                let comma2 = spec_find_char(s, ',', c1 + 1);
                                let md_end = match comma2 {
                                    Some(x) => x,
                                    None => s.len() as int,
                                };
                                let md_tok = s.subrange(c1 + 1, md_end);
                                if !spec_is_any(md_tok) && spec_parse_message_direction(md_tok)
                                    is None {
                                    Err(
                                        spec_invalid_variant_message(
                                            md_tok,
                                            spec_message_direction_variants_message(),
                                        ),
                                    )
                                } else {
                                    let message_direction = if spec_is_any(md_tok) {
                                        None
                                    } else {
                                        spec_parse_message_direction(md_tok)
                                    };
                                    match comma2 {
                                        None => Err(spec_error_message()),
                                        Some(c2) => {
                                            let comma3 = spec_find_char(s, ',', c2 + 1);
                                            let pt_end = match comma3 {
                                                Some(x) => x,
                                                None => s.len() as int,
                                            };
                                            let pt_tok = s.subrange(c2 + 1, pt_end);
                                            if !spec_is_any(pt_tok) && spec_parse_payload_type(
                                                pt_tok,
                                            ) is None {
                                                Err(
                                                    spec_invalid_variant_message(
                                                        pt_tok,
                                                        spec_payload_type_variants_message(),
                                                    ),
                                                )
                                            } else {
                                                let payload_type = if spec_is_any(pt_tok) {
                                                    None
                                                } else {
                                                    spec_parse_payload_type(pt_tok)
                                                };
                                                if comma3 is Some {
                                                    Err(spec_error_message())
                                                } else {
                                                    Ok(
                                                        MessageFilter {
                                                            filter_type,
                                                            connection_type,
                                                            message_direction,
                                                            payload_type,
                                                        },
                                                    )
                                                }
                                            }
                                        },
                                    }
                                }
                            },
                        }
                    }
                },
            }
        },
    }
}

/// Parses the message-filter grammar of the command line.
#[derive(Debug, Clone)]
pub struct MessageFilterCliParser;

impl MessageFilterCliParser {
    pub fn create_filter_type_variants_message(&self) -> (r: String)
        ensures
            r@ == spec_filter_type_variants_message(),
    {
        String::from_str("<filter-type> variants: [allow, prohibit]")
    }

    pub fn create_connection_type_variants_message(&self) -> (r: String)
        ensures
            r@ == spec_connection_type_variants_message(),
    {
        String::from_str("<connection-type> variants: [http, ws]")
    }

    pub fn create_message_direction_variants_message(&self) -> (r: String)
        ensures
            r@ == spec_message_direction_variants_message(),
    {
        String::from_str("<message-direction> variants: [request, response]")
    }

    pub fn create_payload_type_variants_message(&self) -> (r: String)
        ensures
            r@ == spec_payload_type_variants_message(),
    {
        String::from_str(
            "<payload-type> variants: [request, only-data, only-error, partial-data-and-error, non-graph-ql]",
        )
    }

    pub fn create_error_message(&self) -> (r: String)
        ensures
            r@ == spec_error_message(),
    {
        let mut message = String::from_str(
            "Invalid message filter format. Expected <filter_type>:<connection-type>,<message-direction>,<payload-type>",
        );
        message.append("; ");
        message.append(self.create_filter_type_variants_message().as_str());
        message.append("; ");
        message.append(self.create_connection_type_variants_message().as_str());
        message.append("; ");
        message.append(self.create_message_direction_variants_message().as_str());
        message.append("; ");
        message.append(self.create_payload_type_variants_message().as_str());
        message
    }

    /// The error for a slot token that names no variant.
    fn create_invalid_variant_message(&self, tok: &str, variants: &str) -> (r: String)
        ensures
            r@ == spec_invalid_variant_message(tok@, variants@),
    {
        let mut message = String::from_str("invalid variant: ");
        message.append(tok);
        message.append(", ");
        message.append(variants);
        message
    }

    /// Parses one filter from the command-line grammar; see
    /// [`spec_try_parse`] for the grammar and the errors.
    pub fn try_parse(&self, value: &str) -> (r: Result<MessageFilter, String>)
        ensures
            match r {
                Ok(f) => spec_try_parse(value@) == Ok::<MessageFilter, Seq<char>>(f),
                Err(e) => spec_try_parse(value@) matches Err(t) && e@ == t,
            },
    {
        let n = value.unicode_len();
        let colon = match find_char(value, ':', 0) {
            None => {
                return Err(self.create_error_message());
            },
            Some(c) => c,
        };
        let ft_tok = value.substring_char(0, colon);
        let filter_type = if str_eq_ignore_case(ft_tok, "allow") {
            FilterType::Allow
        } else if str_eq_ignore_case(ft_tok, "prohibit") {
            FilterType::Prohibit
        } else {
            return Err(
                self.create_invalid_variant_message(
                    ft_tok,
                    self.create_filter_type_variants_message().as_str(),
                ),
            );
        };
        let comma1 = find_char(value, ',', colon + 1);
        let ct_end = match comma1 {
            Some(x) => x,
            None => n,
        };
        let ct_tok = value.substring_char(colon + 1, ct_end);
        let connection_type = if str_eq_ignore_case(ct_tok, "any") {
            None
        } else if str_eq_ignore_case(ct_tok, "http") {
            Some(ConnectionType::Http)
        } else if str_eq_ignore_case(ct_tok, "ws") {
            Some(ConnectionType::Ws)
        } else {
            return Err(
                self.create_invalid_variant_message(
                    ct_tok,
                    self.create_connection_type_variants_message().as_str(),
                ),
            );
        };
        let c1 = match comma1 {
            Some(x) => x,
            None => {
                return Err(self.create_error_message());
            },
        };
        let comma2 = find_char(value, ',', c1 + 1);
        let md_end = match comma2 {
            Some(x) => x,
            None => n,
        };
        let md_tok = value.substring_char(c1 + 1, md_end);
        let message_direction = if str_eq_ignore_case(md_tok, "any") {
            None
        } else if str_eq_ignore_case(md_tok, "request") {
            Some(MessageDirection::Request)
        } else if str_eq_ignore_case(md_tok, "response") {
            Some(MessageDirection::Response)
        } else {
            return Err(
                self.create_invalid_variant_message(
                    md_tok,
                    self.create_message_direction_variants_message().as_str(),
                ),
            );
        };
        let c2 = match comma2 {
            Some(x) => x,
            None => {
                return Err(self.create_error_message());
            },
        };
        let comma3 = find_char(value, ',', c2 + 1);
        let pt_end = match comma3 {
            Some(x) => x,
            None => n,
        };
        let pt_tok = value.substring_char(c2 + 1, pt_end);
        let payload_type = if str_eq_ignore_case(pt_tok, "any") {
            None
        } else if str_eq_ignore_case(pt_tok, "request") {
            Some(PayloadType::Request)
        } else if str_eq_ignore_case(pt_tok, "only-data") {
            Some(PayloadType::OnlyData)
        } else if str_eq_ignore_case(pt_tok, "only-error") {
            Some(PayloadType::OnlyError)
        } else if str_eq_ignore_case(pt_tok, "partial-data-and-error") {
            Some(PayloadType::PartialDataAndError)
        } else if str_eq_ignore_case(pt_tok, "non-graph-ql") {
            Some(PayloadType::NonGraphQl)
        } else {
            return Err(
                self.create_invalid_variant_message(
                    pt_tok,
                    self.create_payload_type_variants_message().as_str(),
                ),
            );
        };
        if comma3.is_some() {
            return Err(self.create_error_message());
        }
        Ok(MessageFilter { filter_type, connection_type, message_direction, payload_type })
    }
}

} // verus!

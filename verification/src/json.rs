//! The crate's model of a JSON document.
//!
//! Captured payloads are classified and filtered by their top-level
//! shape, so the proxy keeps payloads in a value type of its own. A
//! number keeps the text serde_json prints for it, which spares the
//! model any floating-point content. An object holds its members as a
//! list; values built by [`parse_json_text`] carry them in serde_json's
//! map order — keys sorted, a repeated key collapsed to its last
//! value — and no contract of the crate depends on member order.

use vstd::prelude::*;

verus! {

/// A JSON value, with numbers kept as their printed text.
#[derive(Debug, PartialEq, Eq)]
pub enum JsonValue {
    Null,
    Bool(bool),
    Number(String),
    String(String),
    Array(Vec<JsonValue>),
    Object(Vec<(String, JsonValue)>),
}

/// What `serde_json::from_str` yields on this text: `None` on a parse
/// failure, otherwise the parsed document in the crate's model. The
/// parse reads nothing but the text, so the outcome is a function of it.
pub uninterp spec fn json_parsed(text: Seq<char>) -> Option<JsonValue>;

/// Relies on `serde_json::from_str::<serde_json::Value>` to decide
/// whether the text is a JSON document and to parse it; the parsed
/// value is rebuilt in the crate's model by [`json_value_model`].
#[verifier::external_body]
pub fn parse_json_text(text: &str) -> (r: Option<JsonValue>)
    ensures
        r == json_parsed(text@),
{
    match serde_json::from_str::<serde_json::Value>(text) {
        Ok(v) => Some(json_value_model(&v)),
        Err(_) => None,
    }
}

/// `serde_json`'s own value type, declared so that [`json_value_model`]
/// can take it.
#[verifier::external_type_specification]
#[verifier::external_body]
pub struct ExSerdeJsonValue(serde_json::Value);

/// Relies on `serde_json::Value`: rebuilds the value in the crate's
/// model variant by variant; a number keeps its `to_string` text.
#[verifier::external_body]
fn json_value_model(v: &serde_json::Value) -> JsonValue {
    match v {
        serde_json::Value::Null => JsonValue::Null,
        serde_json::Value::Bool(b) => JsonValue::Bool(*b),
        serde_json::Value::Number(n) => JsonValue::Number(n.to_string()),
        serde_json::Value::String(s) => JsonValue::String(s.clone()),
        serde_json::Value::Array(a) => JsonValue::Array(a.iter().map(json_value_model).collect()),
        serde_json::Value::Object(o) => JsonValue::Object(
            o.iter().map(|(k, w)| (k.clone(), json_value_model(w))).collect(),
        ),
    }
}

/// Whether two strings hold the same characters.
pub fn str_eq(a: &str, b: &str) -> (r: bool)
    ensures
        r == (a@ == b@),
{
    let a_len = a.unicode_len();
    let b_len = b.unicode_len();
    if a_len != b_len {
        return false;
    }
    let mut i: usize = 0;
    while i < a_len
        invariant
            i <= a_len,
            a_len == a@.len(),
            a_len == b@.len(),
            forall|j: int| 0 <= j < i ==> a@[j] == b@[j],
        decreases a_len - i,
    {
        if a.get_char(i) != b.get_char(i) {
            return false;
        }
        i = i + 1;
    }
    proof {
        assert(a@ =~= b@);
    }
    true
}

/// How captured text becomes a payload: the parsed JSON document when
/// the text parses, otherwise the raw text as a JSON string.
pub open spec fn spec_text_payload_ok(payload: JsonValue, text: Seq<char>) -> bool {
    match json_parsed(text) {
        Some(j) => payload == j,
        None => payload matches JsonValue::String(s) && s@ == text,
    }
}

/// Whether an object member list holds the key.
pub open spec fn spec_members_contain_key(
    members: Seq<(String, JsonValue)>,
    key: Seq<char>,
) -> bool {
    exists|i: int| 0 <= i < members.len() && members[i].0@ == key
}

/// Whether the value is an object with a member of this key.
pub open spec fn spec_has_key(v: JsonValue, key: Seq<char>) -> bool {
    match v {
        JsonValue::Object(members) => spec_members_contain_key(members@, key),
        _ => false,
    }
}

/// The first member of this key, if the value is an object holding one.
pub open spec fn spec_get_key(v: JsonValue, key: Seq<char>) -> Option<JsonValue> {
    match v {
        JsonValue::Object(members) => {
            if spec_members_contain_key(members@, key) {
                let i = choose|i: int|
                    0 <= i < members@.len() && members@[i].0@ == key && (forall|j: int|
                        0 <= j < i ==> members@[j].0@ != key);
                Some(members@[i].1)
            } else {
                None
            }
        },
        _ => None,
    }
}

impl JsonValue {
    /// Whether this value is an object with a member of this key.
    pub fn has_key(&self, key: &str) -> (r: bool)
        ensures
            r == spec_has_key(*self, key@),
    {
        match self {
            JsonValue::Object(members) => {
                let n = members.len();
                let mut i: usize = 0;
                while i < n
                    invariant
                        i <= n,
                        n == members@.len(),
                        *self == JsonValue::Object(*members),
                        forall|j: int| 0 <= j < i ==> members@[j].0@ != key@,
                    decreases n - i,
                {
                    if str_eq(members[i].0.as_str(), key) {
                        proof {
                            assert(members@[i as int].0@ == key@);
                            assert(spec_members_contain_key(members@, key@));
                            assert(*self == JsonValue::Object(*members));
                            assert(spec_has_key(*self, key@));
                        }
                        return true;
                    }
                    i = i + 1;
                }
                false
            },
            _ => false,
        }
    }

    /// The value of the first member of this key, if this value is an
    /// object holding one.
    pub fn get_key(&self, key: &str) -> (r: Option<&JsonValue>)
        ensures
            match r {
                Some(inner) => spec_get_key(*self, key@) == Some(*inner),
                None => spec_get_key(*self, key@) is None,
            },
    {
        match self {
            JsonValue::Object(members) => {
                let n = members.len();
                let mut i: usize = 0;
                while i < n
                    invariant
                        i <= n,
                        n == members@.len(),
                        *self == JsonValue::Object(*members),
                        forall|j: int| 0 <= j < i ==> members@[j].0@ != key@,
                    decreases n - i,
                {
                    if str_eq(members[i].0.as_str(), key) {
                        proof {
                            assert(0 <= i < members@.len() && members@[i as int].0@ == key@
                                && (forall|j: int| 0 <= j < i ==> members@[j].0@ != key@));
                            let w = choose|w: int|
                                0 <= w < members@.len() && members@[w].0@ == key@ && (forall|
                                    j: int,
                                |
                                    0 <= j < w ==> members@[j].0@ != key@);
                            if w < i {
                                assert(members@[w].0@ != key@);
                            }
                            if w > i {
                                assert(members@[i as int].0@ != key@);
                            }
                            assert(w == i);
                            assert(*self == JsonValue::Object(*members));
                        }
                        return Some(&members[i].1);
                    }
                    i = i + 1;
                }
                None
            },
            _ => None,
        }
    }
}

} // verus!

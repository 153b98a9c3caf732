//! Classification of a captured payload by its top-level JSON shape.

use vstd::prelude::*;

use crate::json::JsonValue;
use crate::json::spec_has_key;

verus! {

/// The kind of GraphQL traffic a JSON payload looks like.
#[derive(Debug, Clone, Copy, PartialEq, Eq, Structural)]
pub enum PayloadType {
    Request,
    OnlyData,
    OnlyError,
    PartialDataAndError,
    NonGraphQl,
}

/// The classification table: a `query` key wins, then `data` together
/// with `errors`, then `data` alone, then `errors` alone; everything
/// else, and every non-object, is not GraphQL traffic.
pub open spec fn spec_payload_type(payload: JsonValue) -> PayloadType {
    if !(payload is Object) {
        PayloadType::NonGraphQl
    } else if spec_has_key(payload, "query"@) {
        PayloadType::Request
    } else if spec_has_key(payload, "data"@) && spec_has_key(payload, "errors"@) {
        PayloadType::PartialDataAndError
    } else if spec_has_key(payload, "data"@) {
        PayloadType::OnlyData
    } else if spec_has_key(payload, "errors"@) {
        PayloadType::OnlyError
    } else {
        PayloadType::NonGraphQl
    }
}

/// The classification is total and deterministic — it is a function of
/// the payload alone — and its precedence is `query`, then `data`
/// together with `errors`, then `data`, then `errors`, then nothing.
pub proof fn lemma_payload_type_precedence(payload: JsonValue)
    ensures
        spec_has_key(payload, "query"@) ==> spec_payload_type(payload) == PayloadType::Request,
        (!spec_has_key(payload, "query"@) && spec_has_key(payload, "data"@) && spec_has_key(
            payload,
            "errors"@,
        )) ==> spec_payload_type(payload) == PayloadType::PartialDataAndError,
        (!spec_has_key(payload, "query"@) && spec_has_key(payload, "data"@) && !spec_has_key(
            payload,
            "errors"@,
        )) ==> spec_payload_type(payload) == PayloadType::OnlyData,
        (!spec_has_key(payload, "query"@) && !spec_has_key(payload, "data"@) && spec_has_key(
            payload,
            "errors"@,
        )) ==> spec_payload_type(payload) == PayloadType::OnlyError,
        (!(payload is Object) || (!spec_has_key(payload, "query"@) && !spec_has_key(
            payload,
            "data"@,
        ) && !spec_has_key(payload, "errors"@))) ==> spec_payload_type(payload)
            == PayloadType::NonGraphQl,
{
}

impl PayloadType {
    /// Classifies a payload; total over every JSON value and a pure
    /// function of it.
    pub fn from_json(payload: &JsonValue) -> (r: PayloadType)
        ensures
            r == spec_payload_type(*payload),
    {
        if let JsonValue::Object(_) = payload {
            let contains_query = payload.has_key("query");
            let contains_data = payload.has_key("data");
            let contains_errors = payload.has_key("errors");

            if contains_query {
                PayloadType::Request
            } else if contains_data && contains_errors {
                PayloadType::PartialDataAndError
            } else if contains_data {
                PayloadType::OnlyData
            } else if contains_errors {
                PayloadType::OnlyError
            } else {
                PayloadType::NonGraphQl
            }
        } else {
            PayloadType::NonGraphQl
        }
    }
}

} // verus!

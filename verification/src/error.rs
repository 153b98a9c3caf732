//! Typed failures surfaced at startup or through the admin surface.

use vstd::prelude::*;

verus! {

/// An admin operation that the surface exposes but the proxy does not
/// implement yet; the payload names the operation.
#[derive(Clone, Debug)]
pub struct UnimplementedError(pub String);

/// No upstream GraphQL HTTP endpoint was configured at startup.
#[derive(Debug)]
pub struct UnspecifiedGraphQLEndpointError;

/// No upstream GraphQL WebSocket endpoint was configured at startup.
#[derive(Debug)]
pub struct UnspecifiedGraphQLWsEndpointError;

/// An environment variable that should hold a boolean held something else.
#[derive(Debug)]
pub struct CannotParseBoolFromEnvVarError {
    pub varname: String,
    pub source: core::str::ParseBoolError,
}

/// The parse failure kept inside [`CannotParseBoolFromEnvVarError`].
#[verifier::external_type_specification]
#[verifier::external_body]
pub struct ExParseBoolError(core::str::ParseBoolError);

} // verus!

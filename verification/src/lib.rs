//! An intercepting proxy core for GraphQL traffic.
//!
//! The crate holds the data plane and control plane logic of a GraphQL
//! proxy: payload classification, message filtering, header merging,
//! the mutation prohibition, per-connection message minting with sequence
//! counters, and the runtime-mutable admin settings. Network transport
//! (HTTP, WebSocket) is left to the embedding program, which drives the
//! state machines defined here.

pub mod admin_state;
pub mod enums;
pub mod error;
pub mod graphql_endpoints;
pub mod graphql_query;
pub mod headers;
pub mod http_proxy;
pub mod json;
pub mod message;
pub mod message_filter;
pub mod payload_type;
pub mod ws_proxy;

//! The captured-message record published on the bus.

use vstd::prelude::*;

use crate::enums::ConnectionType;
use crate::enums::MessageDirection;
use crate::headers::Headers;
use crate::json::JsonValue;

verus! {

/// One captured event: a request or response payload together with
/// where it travelled and its place in the connection's emission order.
#[derive(Debug)]
pub struct Message {
    pub sequence_counter: u64,
    pub message: JsonValue,
    pub connection_type: ConnectionType,
    pub message_direction: MessageDirection,
    pub connection_id: String,
    pub transmitted_headers: Option<Headers>,
    pub server_endpoint_url: String,
}

impl Message {
    pub fn sequence_counter(&self) -> (r: u64)
        ensures
            r == self.sequence_counter,
    {
        self.sequence_counter
    }

    pub fn message(&self) -> (r: &JsonValue)
        ensures
            r == self.message,
    {
        &self.message
    }

    pub fn connection_type(&self) -> (r: ConnectionType)
        ensures
            r == self.connection_type,
    {
        self.connection_type
    }

    pub fn message_direction(&self) -> (r: MessageDirection)
        ensures
            r == self.message_direction,
    {
        self.message_direction
    }

    pub fn connection_id(&self) -> (r: &String)
        ensures
            r == self.connection_id,
    {
        &self.connection_id
    }

    pub fn transmitted_headers(&self) -> (r: &Option<Headers>)
        ensures
            r == self.transmitted_headers,
    {
        &self.transmitted_headers
    }

    pub fn server_endpoint_url(&self) -> (r: &String)
        ensures
            r == self.server_endpoint_url,
    {
        &self.server_endpoint_url
    }
}

} // verus!

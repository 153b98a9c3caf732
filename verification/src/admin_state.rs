//! Connection identities and the runtime-mutable admin settings.
//!
//! The settings are plain data: the embedding program shares one value
//! behind its own lock and calls the mutators below, whose contracts
//! give the swap semantics the admin surface promises.

use std::sync::Arc;

use vstd::prelude::*;

use crate::graphql_endpoints::GraphQLEndpoints;
use crate::headers::Header;
use crate::headers::Headers;
use crate::headers::spec_by_name;
use crate::headers::spec_lower;
use crate::headers::spec_remove_name;

verus! {

/// Whether position `i` of a hyphenated UUID text holds what the
/// shape demands: a hyphen at 8, 13, 18 and 23, a lowercase
/// hexadecimal digit everywhere else.
pub open spec fn spec_uuid_char_ok(c: char, i: int) -> bool {
    if i == 8 || i == 13 || i == 18 || i == 23 {
        c == '-'
    } else {
        ('0' <= c && c <= '9') || ('a' <= c && c <= 'f')
    }
}

/// Whether a text has the hyphenated UUID shape: 36 characters in
/// lowercase-hexadecimal 8-4-4-4-12 groups.
pub open spec fn spec_uuid_hyphenated(s: Seq<char>) -> bool {
    s.len() == 36 && forall|i: int| 0 <= i < 36 ==> spec_uuid_char_ok(#[trigger] s[i], i)
}

/// Opaque identifier minted once per proxied exchange or session and
/// carried by every message the exchange emits.
#[derive(Debug, PartialEq, Eq)]
#[verifier::ext_equal]
pub struct ConnectionId(pub String);

impl View for ConnectionId {
    type V = Seq<char>;

    open spec fn view(&self) -> Seq<char> {
        self.0@
    }
}

impl ConnectionId {
    /// Relies on `uuid::Uuid::new_v4` and the display form of its
    /// hyphenated adapter, which encodes every value as 36 characters
    /// of lowercase hexadecimal in 8-4-4-4-12 groups. The identifier
    /// is random, so nothing more is promised of it.
    #[verifier::external_body]
    pub fn new() -> (r: ConnectionId)
        ensures
            r@.len() == 36,
            spec_uuid_hyphenated(r@),
    {
        ConnectionId(uuid::Uuid::new_v4().as_hyphenated().to_string())
    }

    /// The identifier as a shared string handle.
    pub fn as_arc_string(&self) -> (r: Arc<String>)
        ensures
            r@ == self@,
    {
        Arc::new(self.0.clone())
    }
}

impl Clone for ConnectionId {
    fn clone(&self) -> (res: ConnectionId)
        ensures
            res == *self,
    {
        let res = ConnectionId(self.0.clone());
        proof {
            assert(res =~= *self);
        }
        res
    }
}

/// The shared configuration the admin surface reads and mutates:
/// upstream endpoints, the two header overlays, and the mutation
/// prohibition flag.
#[derive(Debug)]
pub struct AdminState {
    pub prohibit_mutation: bool,
    pub server_endpoints: GraphQLEndpoints,
    pub request_headers: Headers,
    pub response_headers: Headers,
}

impl AdminState {
    pub fn new(
        server_graphql_endpoint: String,
        server_graphql_ws_endpoint: String,
        prohibit_mutation: bool,
        request_headers: Headers,
        response_headers: Headers,
    ) -> (r: AdminState)
        ensures
            r.prohibit_mutation == prohibit_mutation,
            r.server_endpoints.graphql_endpoint == server_graphql_endpoint,
            r.server_endpoints.graphql_ws_endpoint == server_graphql_ws_endpoint,
            r.request_headers == request_headers,
            r.response_headers == response_headers,
    {
        AdminState {
            prohibit_mutation,
            server_endpoints: GraphQLEndpoints {
                graphql_endpoint: server_graphql_endpoint,
                graphql_ws_endpoint: server_graphql_ws_endpoint,
            },
            request_headers,
            response_headers,
        }
    }

    /// The mutation prohibition flag as last installed.
    pub fn prohibit_mutation(&self) -> (r: bool)
        ensures
            r == self.prohibit_mutation,
    {
        self.prohibit_mutation
    }

    /// Installs a new mutation prohibition flag and returns the prior
    /// one.
    pub fn set_prohibit_mutation(&mut self, prohibit_mutation: bool) -> (prev: bool)
        ensures
            prev == old(self).prohibit_mutation,
            final(self).prohibit_mutation == prohibit_mutation,
            final(self).server_endpoints == old(self).server_endpoints,
            final(self).request_headers == old(self).request_headers,
            final(self).response_headers == old(self).response_headers,
    {
        let prev = self.prohibit_mutation;
        self.prohibit_mutation = prohibit_mutation;
        prev
    }

    /// A snapshot of the upstream endpoints.
    pub fn server_graphql_endpoints_read(&self) -> (r: GraphQLEndpoints)
        ensures
            r == self.server_endpoints,
    {
        self.server_endpoints.clone()
    }

    /// Installs new upstream endpoints and returns the prior pair.
    pub fn set_server_endpoints(
        &mut self,
        graphql_endpoint: String,
        graphql_ws_endpoint: String,
    ) -> (prev: GraphQLEndpoints)
        ensures
            prev == old(self).server_endpoints,
            final(self).server_endpoints == (GraphQLEndpoints { graphql_endpoint, graphql_ws_endpoint }),
            final(self).prohibit_mutation == old(self).prohibit_mutation,
            final(self).request_headers == old(self).request_headers,
            final(self).response_headers == old(self).response_headers,
    {
        let mut endpoints = GraphQLEndpoints { graphql_endpoint, graphql_ws_endpoint };
        std::mem::swap(&mut endpoints, &mut self.server_endpoints);
        endpoints
    }

    /// The request-header overlay.
    pub fn request_headers(&self) -> (r: &Headers)
        ensures
            r == self.request_headers,
    {
        &self.request_headers
    }

    /// The response-header overlay.
    pub fn response_headers(&self) -> (r: &Headers)
        ensures
            r == self.response_headers,
    {
        &self.response_headers
    }

    /// Appends to the request overlay without touching prior entries
    /// of the same name; always reports success.
    pub fn add_request_header(&mut self, name: String, value: String) -> (r: bool)
        ensures
            r,
            final(self).request_headers@ == old(self).request_headers@.push(
                Header { name, value },
            ),
            final(self).response_headers == old(self).response_headers,
            final(self).prohibit_mutation == old(self).prohibit_mutation,
            final(self).server_endpoints == old(self).server_endpoints,
    {
        self.request_headers.append(name, value);
        true
    }

    /// Replaces every request-overlay entry of this name with the new
    /// value and returns the first replaced value, if any.
    pub fn set_request_header(&mut self, name: String, value: String) -> (r: Option<String>)
        ensures
            final(self).request_headers@ == spec_remove_name(
                old(self).request_headers@,
                spec_lower(name@),
            ).push(Header { name, value }),
            (match r {
                Some(v) => spec_by_name(old(self).request_headers@, name@) matches Some(h)
                    && h.value == v,
                None => spec_by_name(old(self).request_headers@, name@) is None,
            }),
            final(self).response_headers == old(self).response_headers,
            final(self).prohibit_mutation == old(self).prohibit_mutation,
            final(self).server_endpoints == old(self).server_endpoints,
    {
        let prev = self.request_headers.remove(name.as_str());
        self.request_headers.append(name, value);
        prev
    }

    /// Removes every request-overlay entry of this name and returns
    /// the first removed value, if any.
    pub fn remove_request_header(&mut self, name: &str) -> (r: Option<String>)
        ensures
            final(self).request_headers@ == spec_remove_name(
                old(self).request_headers@,
                spec_lower(name@),
            ),
            (match r {
                Some(v) => spec_by_name(old(self).request_headers@, name@) matches Some(h)
                    && h.value == v,
                None => spec_by_name(old(self).request_headers@, name@) is None,
            }),
            final(self).response_headers == old(self).response_headers,
            final(self).prohibit_mutation == old(self).prohibit_mutation,
            final(self).server_endpoints == old(self).server_endpoints,
    {
        self.request_headers.remove(name)
    }

    /// Appends to the response overlay without touching prior entries
    /// of the same name; always reports success.
    pub fn add_response_header(&mut self, name: String, value: String) -> (r: bool)
        ensures
            r,
            final(self).response_headers@ == old(self).response_headers@.push(
                Header { name, value },
            ),
            final(self).request_headers == old(self).request_headers,
            final(self).prohibit_mutation == old(self).prohibit_mutation,
            final(self).server_endpoints == old(self).server_endpoints,
    {
        self.response_headers.append(name, value);
        true
    }

    /// Replaces every response-overlay entry of this name with the new
    /// value and returns the first replaced value, if any.
    pub fn set_response_header(&mut self, name: String, value: String) -> (r: Option<String>)
        ensures
            final(self).response_headers@ == spec_remove_name(
                old(self).response_headers@,
                spec_lower(name@),
            ).push(Header { name, value }),
            (match r {
                Some(v) => spec_by_name(old(self).response_headers@, name@) matches Some(h)
                    && h.value == v,
                None => spec_by_name(old(self).response_headers@, name@) is None,
            }),
            final(self).request_headers == old(self).request_headers,
            final(self).prohibit_mutation == old(self).prohibit_mutation,
            final(self).server_endpoints == old(self).server_endpoints,
    {
        let prev = self.response_headers.remove(name.as_str());
        self.response_headers.append(name, value);
        prev
    }

    /// Removes every response-overlay entry of this name and returns
    /// the first removed value, if any.
    pub fn remove_response_header(&mut self, name: &str) -> (r: Option<String>)
        ensures
            final(self).response_headers@ == spec_remove_name(
                old(self).response_headers@,
                spec_lower(name@),
            ),
            (match r {
                Some(v) => spec_by_name(old(self).response_headers@, name@) matches Some(h)
                    && h.value == v,
                None => spec_by_name(old(self).response_headers@, name@) is None,
            }),
            final(self).request_headers == old(self).request_headers,
            final(self).prohibit_mutation == old(self).prohibit_mutation,
            final(self).server_endpoints == old(self).server_endpoints,
    {
        self.response_headers.remove(name)
    }
}

} // verus!

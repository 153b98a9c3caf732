//! The pair of upstream endpoint URLs the proxy forwards to.

use vstd::prelude::*;

verus! {

/// Upstream URLs: one for HTTP exchanges, one for WebSocket sessions.
#[derive(Debug, PartialEq, Eq)]
#[verifier::ext_equal]
pub struct GraphQLEndpoints {
    pub graphql_endpoint: String,
    pub graphql_ws_endpoint: String,
}

impl GraphQLEndpoints {
    pub fn graphql_endpoint(&self) -> (r: &String)
        ensures
            r == self.graphql_endpoint,
    {
        &self.graphql_endpoint
    }

    pub fn graphql_ws_endpoint(&self) -> (r: &String)
        ensures
            r == self.graphql_ws_endpoint,
    {
        &self.graphql_ws_endpoint
    }
}

impl Clone for GraphQLEndpoints {
    fn clone(&self) -> (res: GraphQLEndpoints)
        ensures
            res == *self,
    {
        let res = GraphQLEndpoints {
            graphql_endpoint: self.graphql_endpoint.clone(),
            graphql_ws_endpoint: self.graphql_ws_endpoint.clone(),
        };
        proof {
            assert(res =~= *self);
        }
        res
    }
}

} // verus!

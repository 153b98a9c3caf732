//! The small closed enumerations of the message model: how a captured
//! message travelled (connection type), which way it went (direction),
//! and whether a filter admits or rejects what it matches.

use vstd::prelude::*;

verus! {

/// Transport over which a captured message travelled.
#[derive(Debug, Clone, Copy, PartialEq, Eq, Structural)]
pub enum ConnectionType {
    Http,
    Ws,
}

/// Direction of a captured message relative to the upstream server.
#[derive(Debug, Clone, Copy, PartialEq, Eq, Structural)]
pub enum MessageDirection {
    Request,
    Response,
}

/// Effect of a message filter on the messages it matches.
#[derive(Debug, Clone, Copy, PartialEq, Eq, Structural)]
pub enum FilterType {
    Allow,
    Prohibit,
}

} // verus!

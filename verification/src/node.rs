//! What the node reports about itself.
use vstd::prelude::*;

verus! {

/// What the node's `getnetworkinfo` call reports: its protocol version, its
/// user agent and its connection counts.
pub struct NetworkInfo {
    pub version: u64,
    pub subversion: String,
    pub connections: u64,
    pub connections_in: u64,
    pub connections_out: u64,
}

} // verus!

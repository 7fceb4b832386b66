//! uTP transfers between Portal peers.
use vstd::prelude::*;

verus! {

/// Direction of a uTP transfer.
#[derive(Debug, Clone, Copy, PartialEq, Eq)]
pub enum UtpDirection {
    /// A transfer started by a peer.
    Inbound,
    /// A transfer started by this node.
    Outbound,
}

} // verus!

//! Verified core of an Ethereum execution client that bridges state into the
//! Portal network: the persisted execution position and its record format,
//! the block store layout, the bookkeeping of state offers, the Engine and
//! JSON-RPC answers, the decisions of the block syncers, the reading of chain
//! and era files, and the small state machines around them.
use vstd::prelude::*;

pub mod bench;
pub mod block_rlp;
pub mod blockchain;
pub mod bridge;
pub mod config;
pub mod engine;
pub mod era;
pub mod execution_position;
pub mod hash;
pub mod import;
pub mod offer_report;
pub mod rlp;
pub mod rpc;
pub mod stats;
pub mod storage;
pub mod sync;
pub mod text;
pub mod utp;

verus! {

} // verus!

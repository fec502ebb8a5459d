//! Chain synchronisation and consensus-fault core: a caching tipset index
//! over an append-only arena of tipsets, the decisions of the sync
//! orchestrator, and the consensus-fault classifier with its gas accounting.
use vstd::prelude::*;

pub mod index;
pub mod muxer;
pub mod fault;
pub mod node;
pub mod address;
pub mod rpc;
pub mod exchange;

verus! {

} // verus!

//! Two-phase commit for a transaction that spans several database shards:
//! the change-set wire format and its decoder, the per-participant
//! transaction controller, and the decisions of the dispatcher that votes on
//! surrogate transactions.
//!
//! Nothing in this crate performs I/O. A driver outside it talks to the
//! storage engine and to peers, and reports what happened.

pub mod buffer;
pub mod channel;
pub mod format;
pub mod format_proofs;
pub mod pg;
pub mod text;
pub mod transaction;
pub mod wire;

use bytes::Bytes;
use tokio::sync::oneshot::Sender;
use vstd::prelude::*;

verus! {

/// A message on the work queue of a node.
pub enum XsMessage {
    /// A peer asks this node to prepare its share of a transaction.
    Prepare { xact_id: XactId, data: Bytes },
    /// A peer's vote on a transaction.
    Vote { xact_id: XactId, vote: bool },
    /// A transaction to replay on the local storage engine; the vote on it
    /// is awaited on `vote_tx`.
    SurrogateXact { xact_id: XactId, data: Bytes, vote_tx: Sender<bool> },
}


/// Names a distributed transaction across the cluster, and on every
/// participant the transaction prepared for it.
pub type XactId = u64;

} // verus!

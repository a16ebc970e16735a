//! The one-shot channel on which a session waits for the outcome of its
//! transaction: the sending half of `tokio::sync::oneshot`.

use tokio::sync::oneshot::Sender;
use vstd::prelude::*;

verus! {

/// `tokio::sync::oneshot::Sender`, the half of a one-shot channel that
/// sends. The verifier sees nothing inside a value of it.
#[verifier::external_type_specification]
#[verifier::external_body]
#[verifier::reject_recursive_types(T)]
pub struct ExSender<T>(tokio::sync::oneshot::Sender<T>);

/// `tokio::sync::oneshot::Sender::send`: hands `value` to the receiving
/// half and uses the sender up. Whether the value arrives depends on the
/// receiver being alive, so nothing is promised of success; where the call
/// fails, it gives the value back.
#[verifier::external_body]
pub(crate) fn send(tx: Sender<bool>, value: bool) -> (r: Result<(), bool>)
    ensures
        r matches Err(returned) ==> returned == value,
{
    tx.send(value)
}

} // verus!

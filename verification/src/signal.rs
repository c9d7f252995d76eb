//! Trusted declarations for the one-shot shutdown signal and for the
//! completion handle of the dedicated serve-loop task. Both types are
//! opaque here: the library moves them in and out of its slots; creating
//! the channel, running the loop and awaiting the handle happen outside.

use vstd::prelude::*;

verus! {

/// Declares tokio's one-shot sender so that verified code can hold and
/// move a value of it; what is inside stays opaque to the verifier.
#[verifier::external_type_specification]
#[verifier::external_body]
#[verifier::reject_recursive_types(T)]
pub struct ExOneshotSender<T>(tokio::sync::oneshot::Sender<T>);

/// Declares tokio's task join handle so that verified code can hold and
/// move a value of it; awaiting it is the caller's (async) concern.
#[verifier::external_type_specification]
#[verifier::external_body]
#[verifier::reject_recursive_types(T)]
pub struct ExJoinHandle<T>(tokio::task::JoinHandle<T>);

/// Declares tokio's join error, the failure side of awaiting a join
/// handle; the library never constructs or reads one.
#[verifier::external_type_specification]
#[verifier::external_body]
pub struct ExJoinError(tokio::task::JoinError);

/// Relies on tokio::sync::oneshot::Sender::send: consumes the sender and
/// delivers the unit notification to the paired receiver; the result says
/// whether the receiver was still listening. Delivery happens at most once
/// because the sender is consumed. Nothing more is promised of the result:
/// whether delivery succeeds depends on the receiver's side of the channel.
#[verifier::external_body]
pub(crate) fn fire(tx: tokio::sync::oneshot::Sender<()>) -> (delivered: bool) {
    tx.send(()).is_ok()
}

} // verus!

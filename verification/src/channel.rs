//! One-shot shutdown signalling, carried by tokio's oneshot channel.
//!
//! Each session owns exactly one shutdown pair: the controller keeps the
//! sender inside the session slot, the session thread holds the receiver and
//! races it against the engine. Ownership makes both single-use: sending
//! consumes the sender, and the slot gives the handle out at most once.

use vstd::prelude::*;

verus! {

#[verifier::external_type_specification]
#[verifier::external_body]
#[verifier::reject_recursive_types(T)]
pub struct ExSender<T>(tokio::sync::oneshot::Sender<T>);

#[verifier::external_type_specification]
#[verifier::external_body]
#[verifier::reject_recursive_types(T)]
pub struct ExReceiver<T>(tokio::sync::oneshot::Receiver<T>);

/// The error a dropped sender leaves behind on the receiver; it appears in
/// the receiver's trait impls, so it must be declared along with the
/// receiver.
#[verifier::external_type_specification]
#[verifier::external_body]
pub struct ExRecvError(tokio::sync::oneshot::error::RecvError);

/// Relies on tokio::sync::oneshot::channel: returns a freshly connected
/// sender/receiver pair.
#[verifier::external_body]
pub(crate) fn shutdown_channel() -> (tokio::sync::oneshot::Sender<()>, tokio::sync::oneshot::Receiver<()>) {
    tokio::sync::oneshot::channel()
}

/// Relies on tokio::sync::oneshot::Sender::send: consumes the sender and
/// completes the channel. The boolean says whether the receiver was still
/// alive to take the signal; a session that already finished naturally has
/// dropped its receiver, and the signal is then ignored.
#[verifier::external_body]
pub(crate) fn send_shutdown(tx: tokio::sync::oneshot::Sender<()>) -> bool {
    tx.send(()).is_ok()
}

} // verus!

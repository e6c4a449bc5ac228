//! Decision logic of the socket-protection callback.
//!
//! A session's sockets must be exempted from the tunnel they feed, or the
//! tunnel would capture its own traffic. The exemption is a predicate call
//! into the host runtime, made from arbitrary threads. The calls themselves —
//! binding the calling thread to the host runtime, clearing stale error
//! state, invoking the predicate, reading the boolean back — are the
//! embedder's adapter work; this module holds the decisions around them:
//! whether the call may be attempted at all, and what each adapter outcome
//! means for the caller. Protection never raises: every internal failure
//! path folds to `false`, "assume unprotected".

use vstd::prelude::*;

use crate::registry::Registry;
use crate::registry::RegistryV;

verus! {

/// What one attempted callback invocation came to.
#[derive(Clone, Copy, Debug, PartialEq, Eq, Structural)]
pub enum ProtectOutcome {
    /// Binding the calling thread to the host runtime failed.
    AttachFailed,
    /// The callback call itself raised in the host runtime.
    InvokeFailed,
    /// The call returned, but its result could not be read as a boolean.
    ConversionFailed,
    /// The predicate returned this answer.
    Returned(bool),
}

/// A protection attempt may proceed only once both the host-runtime handle
/// and the callback target are recorded.
pub open spec fn protect_may_proceed(reg: RegistryV) -> bool {
    reg.handle is Some && reg.callback_target is Some
}

/// The socket counts as protected exactly when the callback was invoked and
/// returned true; every failure is "unprotected".
pub open spec fn spec_protect_answer(outcome: ProtectOutcome) -> bool {
    outcome == ProtectOutcome::Returned(true)
}

/// The fail-fast test of a protection attempt: true iff the registry holds
/// both the host-runtime handle and the callback target. While this returns
/// false — before load-time initialization, or forever after a failed
/// callback-target resolution — protection is degraded and the caller answers
/// false without attempting any callback.
pub fn protect_precheck(reg: &Registry) -> (r: bool)
    ensures
        r == protect_may_proceed(reg@),
{
    let handle = reg.get_handle();
    let target = reg.get_callback_target();
    handle.is_some() && target.is_some()
}

/// Folds an adapter outcome into the answer the caller gets: true only for a
/// callback that returned true; false on every failure path.
pub fn fold_protect_outcome(outcome: ProtectOutcome) -> (r: bool)
    ensures
        r == spec_protect_answer(outcome),
{
    match outcome {
        ProtectOutcome::Returned(answer) => answer,
        ProtectOutcome::AttachFailed => false,
        ProtectOutcome::InvokeFailed => false,
        ProtectOutcome::ConversionFailed => false,
    }
}

/// Socket protection before load-time initialization always answers false:
/// while either slot of the registry is unset, the fail-fast test refuses, so no
/// callback is attempted and the caller answers false without blocking.
pub proof fn lemma_protect_denied_before_init(reg: RegistryV)
    requires
        reg.handle is None || reg.callback_target is None,
    ensures
        !protect_may_proceed(reg),
{
}

} // verus!

//! Write-once registry of host-runtime handles.
//!
//! At load time the host runtime hands over a handle to itself, and a
//! callback target is resolved by name while the load-time resolution context
//! is still available. Both are recorded at most once — the first write wins,
//! later writes are no-ops — and are readable from any thread afterwards.
//! Resolution of the callback target may fail; the registry then simply never
//! records it, which leaves socket protection permanently degraded but is
//! otherwise harmless.
//!
//! Handles are carried as plain machine words: the embedder converts its
//! pointers or references to and from them at the boundary.

use vstd::prelude::*;

verus! {

/// The mathematical value of the registry: which of the two slots are set,
/// and to what.
pub struct RegistryV {
    pub handle: Option<usize>,
    pub callback_target: Option<usize>,
}

/// Process-wide, write-once storage of the host-runtime handle and the
/// callback-target reference.
pub struct Registry {
    handle: Option<usize>,
    callback_target: Option<usize>,
}

impl View for Registry {
    type V = RegistryV;

    closed spec fn view(&self) -> RegistryV {
        RegistryV { handle: self.handle, callback_target: self.callback_target }
    }
}

/// What a registry slot holds after a write: the first write wins, later
/// writes change nothing.
pub open spec fn first_write_wins(slot: Option<usize>, value: usize) -> Option<usize> {
    if slot is Some {
        slot
    } else {
        Some(value)
    }
}

/// A registry slot is write-once: once any write has landed, every later
/// write is a no-op, so the first recorded value stands for the life of the
/// process.
pub proof fn lemma_slot_write_once(slot: Option<usize>, a: usize, b: usize)
    ensures
        first_write_wins(first_write_wins(slot, a), b) == first_write_wins(slot, a),
{
}

impl Registry {
    /// A fresh registry with both slots unset.
    pub fn new() -> (r: Registry)
        ensures
            r@ == (RegistryV { handle: None::<usize>, callback_target: None::<usize> }),
    {
        Registry { handle: None, callback_target: None }
    }

    /// Records the host-runtime handle; a no-op after the first call.
    pub fn record_handle(&mut self, handle: usize)
        ensures
            final(self)@ == (RegistryV {
                handle: first_write_wins(old(self)@.handle, handle),
                callback_target: old(self)@.callback_target,
            }),
    {
        if self.handle.is_none() {
            self.handle = Some(handle);
        }
    }

    /// Records the callback-target reference; a no-op after the first call.
    pub fn record_callback_target(&mut self, target: usize)
        ensures
            final(self)@ == (RegistryV {
                handle: old(self)@.handle,
                callback_target: first_write_wins(old(self)@.callback_target, target),
            }),
    {
        if self.callback_target.is_none() {
            self.callback_target = Some(target);
        }
    }

    /// Reads the host-runtime handle; `None` until initialization recorded it.
    pub fn get_handle(&self) -> (r: Option<usize>)
        ensures
            r == self@.handle,
    {
        self.handle
    }

    /// Reads the callback-target reference; `None` until initialization
    /// recorded it, and forever if resolution failed at load time.
    pub fn get_callback_target(&self) -> (r: Option<usize>)
        ensures
            r == self@.callback_target,
    {
        self.callback_target
    }
}

} // verus!

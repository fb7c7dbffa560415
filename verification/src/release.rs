//! The deterministic, idempotent release protocol.
//!
//! Every resource moves from `Created` to `Released`, and `Released` is
//! terminal: releasing an already-released resource is a documented no-op
//! returning success, never a double-free and never a panic. A release
//! nulls the local handle before anything else can observe it, so the
//! handle is considered gone even if the engine reported a failure.

use crate::status::VxError;
use vstd::prelude::*;

verus! {

/// The capability of releasing a resource deterministically and
/// idempotently.
pub trait Release: Sized {
    /// Whether this resource has been released: its local handle is null.
    spec fn spec_released(&self) -> bool;

    /// Releases the resource. After the call the resource is released,
    /// whatever the engine reported; releasing an already-released
    /// resource changes nothing and still succeeds.
    fn release(&mut self) -> (r: Result<(), VxError>)
        ensures
            final(self).spec_released(),
            r is Ok,
            old(self).spec_released() ==> *final(self) == *old(self),
    ;
}

} // verus!

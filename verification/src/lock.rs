//! The two-state guard that serializes swap attempts.
//!
//! A swap request finds the lock `Idle` and takes it, or finds it
//! `InFlight` and is rejected at once.  Finalization releases the lock
//! unconditionally, whatever the outcome of the swap.  There is no
//! timeout: if a dispatched remote call's result is never delivered,
//! finalization never runs and the lock stays set — a documented risk of
//! the protocol, accepted rather than patched here.

use vstd::prelude::*;

verus! {

/// The state of the pending guard: `Idle` when no swap is between
/// acceptance and finalization, `InFlight` while exactly one is.
#[derive(Clone, Copy, Debug, PartialEq, Eq, Structural)]
pub enum PendingLock {
    Idle,
    InFlight,
}

impl PendingLock {
    /// Whether a swap is currently between acceptance and finalization.
    pub open spec fn is_in_flight(self) -> bool {
        self is InFlight
    }

    /// A fresh guard: no swap in flight.
    pub fn new() -> (r: PendingLock)
        ensures
            !r.is_in_flight(),
    {
        PendingLock::Idle
    }

    /// The entry transition of a swap request: taken if and only if the
    /// guard was idle; either way the guard is in flight afterwards.
    pub fn try_acquire(&mut self) -> (acquired: bool)
        ensures
            acquired == !old(self).is_in_flight(),
            final(self).is_in_flight(),
    {
        match *self {
            PendingLock::Idle => {
                *self = PendingLock::InFlight;
                true
            },
            PendingLock::InFlight => false,
        }
    }

    /// The finalization transition: unconditional release, whatever path
    /// the settlement took.
    pub fn release(&mut self)
        ensures
            !final(self).is_in_flight(),
    {
        *self = PendingLock::Idle;
    }

    /// Runtime query of the guard state.
    pub fn in_flight(&self) -> (r: bool)
        ensures
            r == self.is_in_flight(),
    {
        match *self {
            PendingLock::Idle => false,
            PendingLock::InFlight => true,
        }
    }
}

} // verus!

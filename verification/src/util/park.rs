//! A single-waiter block/wake state machine.
//!
//! The parker keeps a three-state flag: `Empty` (no notification, no
//! waiter), `Notified` (a wake arrived before anyone waited), and
//! `Parked` (the waiter announced it is about to sleep). The
//! decisions of the protocol are verified here; actually putting a
//! thread to sleep and signalling it are left to the embedding,
//! which drives the flag through [`Parker::park_begin`],
//! [`Parker::park_check`] and [`Parker::unpark`] around its own lock
//! and condition variable.

use vstd::prelude::*;

verus! {

/// The flag of a [`Parker`].
#[derive(PartialEq, Eq, Clone, Copy, Debug)]
pub enum ParkState {
    /// A notification arrived and has not been consumed yet.
    Notified,
    /// No pending notification and no waiter.
    Empty,
    /// The waiter announced that it is about to sleep.
    Parked,
}

/// A single-waiter block/wake flag.
pub struct Parker {
    state: ParkState,
}

impl Parker {
    /// The current flag value.
    pub closed spec fn state(&self) -> ParkState {
        self.state
    }

    /// Creates a parker with no pending notification.
    pub fn new() -> (r: Self)
        ensures
            r.state() == ParkState::Empty,
    {
        Parker { state: ParkState::Empty }
    }

    /// The waiter's first step. Consumes a pending notification and
    /// reports that no wait is needed, or records that the waiter is
    /// about to sleep.
    ///
    /// Only the single owning waiter may call this, and never while
    /// it is already parked.
    pub fn park_begin(&mut self) -> (must_wait: bool)
        requires
            old(self).state() != ParkState::Parked,
        ensures
            old(self).state() == ParkState::Notified ==> !must_wait && final(self).state()
                == ParkState::Empty,
            old(self).state() == ParkState::Empty ==> must_wait && final(self).state()
                == ParkState::Parked,
    {
        match self.state {
            ParkState::Notified => {
                self.state = ParkState::Empty;
                false
            }
            _ => {
                self.state = ParkState::Parked;
                true
            }
        }
    }

    /// The waiter's re-check after every wake-up. Consumes a pending
    /// notification and reports that the wait is over; on a spurious
    /// wake-up it reports that the waiter must sleep again.
    pub fn park_check(&mut self) -> (woken: bool)
        ensures
            old(self).state() == ParkState::Notified ==> woken && final(self).state()
                == ParkState::Empty,
            old(self).state() != ParkState::Notified ==> !woken && final(self).state() == old(
                self,
            ).state(),
    {
        match self.state {
            ParkState::Notified => {
                self.state = ParkState::Empty;
                true
            }
            _ => false,
        }
    }

    /// Posts a notification. The result says whether the waiter had
    /// announced that it sleeps, in which case the embedding must
    /// signal it.
    pub fn unpark(&mut self) -> (wake_needed: bool)
        ensures
            final(self).state() == ParkState::Notified,
            wake_needed == (old(self).state() == ParkState::Parked),
    {
        let prev = self.state;
        self.state = ParkState::Notified;
        match prev {
            ParkState::Parked => true,
            _ => false,
        }
    }
}

} // verus!

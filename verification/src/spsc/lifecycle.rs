//! The disconnect handshake shared by the channel flavors.
//!
//! A channel's shared state is jointly held by exactly two endpoint
//! handles. Each handle, when it goes away, walks a counter through
//! a closed three-value protocol: a prior value of zero means the
//! peer is still up, so the departing endpoint makes the disconnect
//! visible and steps again; a prior value of one means the departing
//! endpoint is the first one fully out; a prior value of two means
//! the peer already left, so this endpoint must free the shared
//! state. Exactly one of the two endpoints is told to free it.

use vstd::prelude::*;
use vstd::pervasive::unreached;

verus! {

/// The disconnect counter of one channel, together with ghost
/// knowledge of which endpoints are still up.
pub(crate) struct Lifecycle {
    /// The disconnect counter: zero while both endpoints are up, two
    /// after one endpoint left, three after both left.
    count: usize,
    /// Whether the sending endpoint is still up.
    sender_here: Ghost<bool>,
    /// Whether the receiving endpoint is still up.
    receiver_here: Ghost<bool>,
}

impl Lifecycle {
    /// The counter only ever holds a value matching the set of
    /// endpoints that are still up.
    pub(crate) closed spec fn wf(&self) -> bool {
        &&& (self.count == 0 <==> (self.sender_here@ && self.receiver_here@))
        &&& (self.count == 2 <==> (self.sender_here@ != self.receiver_here@))
        &&& (self.count == 3 <==> (!self.sender_here@ && !self.receiver_here@))
        &&& (self.count == 0 || self.count == 2 || self.count == 3)
    }

    /// Whether the sending endpoint is still up.
    pub(crate) closed spec fn sender_live(&self) -> bool {
        self.sender_here@
    }

    /// Whether the receiving endpoint is still up.
    pub(crate) closed spec fn receiver_live(&self) -> bool {
        self.receiver_here@
    }

    /// Whether no endpoint has started disconnecting yet.
    pub(crate) closed spec fn connected(&self) -> bool {
        self.count == 0
    }

    /// A well-formed lifecycle is connected exactly while both
    /// endpoints are up.
    pub(crate) proof fn lemma_connected_iff_both_live(&self)
        requires
            self.wf(),
        ensures
            self.connected() <==> (self.sender_live() && self.receiver_live()),
    {
    }

    /// Starts with both endpoints up.
    pub(crate) fn new() -> (r: Self)
        ensures
            r.wf(),
            r.sender_live(),
            r.receiver_live(),
            r.connected(),
    {
        Lifecycle { count: 0, sender_here: Ghost(true), receiver_here: Ghost(true) }
    }

    /// Whether no endpoint has disconnected yet.
    pub(crate) fn is_connected(&self) -> (r: bool)
        ensures
            r == self.connected(),
    {
        self.count == 0
    }

    /// Runs the departing sender's side of the handshake; the result
    /// says whether this endpoint must free the shared state.
    pub(crate) fn disconnect_sender(&mut self) -> (freed: bool)
        requires
            old(self).wf(),
            old(self).sender_live(),
        ensures
            final(self).wf(),
            !final(self).sender_live(),
            final(self).receiver_live() == old(self).receiver_live(),
            !final(self).connected(),
            freed == !old(self).receiver_live(),
    {
        let ghost receiver_stays = self.receiver_here@;
        loop
            invariant
                self.sender_here@,
                receiver_stays == old(self).receiver_here@,
                self.receiver_here@ == receiver_stays,
                receiver_stays ==> (self.count == 0 || self.count == 1),
                !receiver_stays ==> self.count == 2,
            decreases 3 - self.count,
        {
            let prev = self.count;
            self.count = self.count + 1;
            match prev {
                0 => {
                    // the peer is still up; the counter is now visibly
                    // nonzero, so step once more before letting the
                    // shared state go away
                }
                1 => {
                    self.sender_here = Ghost(false);
                    return false;
                }
                2 => {
                    self.sender_here = Ghost(false);
                    return true;
                }
                _ => {
                    return unreached();
                }
            }
        }
    }

    /// Runs the departing receiver's side of the handshake; the
    /// result says whether this endpoint must free the shared state.
    pub(crate) fn disconnect_receiver(&mut self) -> (freed: bool)
        requires
            old(self).wf(),
            old(self).receiver_live(),
        ensures
            final(self).wf(),
            !final(self).receiver_live(),
            final(self).sender_live() == old(self).sender_live(),
            !final(self).connected(),
            freed == !old(self).sender_live(),
    {
        let ghost sender_stays = self.sender_here@;
        loop
            invariant
                self.receiver_here@,
                sender_stays == old(self).sender_here@,
                self.sender_here@ == sender_stays,
                sender_stays ==> (self.count == 0 || self.count == 1),
                !sender_stays ==> self.count == 2,
            decreases 3 - self.count,
        {
            let prev = self.count;
            self.count = self.count + 1;
            match prev {
                0 => {
                    // the peer is still up; the counter is now visibly
                    // nonzero, so step once more before letting the
                    // shared state go away
                }
                1 => {
                    self.receiver_here = Ghost(false);
                    return false;
                }
                2 => {
                    self.receiver_here = Ghost(false);
                    return true;
                }
                _ => {
                    return unreached();
                }
            }
        }
    }
}

} // verus!

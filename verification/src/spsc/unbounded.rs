//! An unbounded single-producer single-consumer channel.
//!
//! The channel keeps its pending items in a growable ring that plays
//! the role of a recycling node chain: a send reuses a vacated slot
//! whenever the producer's cached view shows one, and allocates a
//! fresh slot only when none is free even after refreshing that view
//! from the live count. Sending therefore never reports a full
//! channel, but it is not allocation-free. The channel state is a
//! [`Channel`] value handed to every operation; the [`Sender`] and
//! [`Receiver`] handles address its two ends, and each one runs the
//! disconnect handshake when it leaves.

use vstd::prelude::*;
use vstd::pervasive::unreached;
use crate::spsc::lifecycle::Lifecycle;
use crate::spsc::ring::RingBuf;
use crate::util::CacheAligned;
use crate::util::park::{ParkState, Parker};
use core::marker::PhantomData;

pub use crate::error::{RecvError, SendError, TryRecvError};

verus! {

/// The producer-owned region of the channel state.
struct ProducerSide {
    /// The producer's conservative count of vacated slots available
    /// for reuse. It never overcounts; it is refreshed from the live
    /// counts only when it claims nothing is free.
    free_hint: usize,
    /// The flag the receiver sleeps on; the producer posts to it.
    /// The producer itself never sleeps: it can always grow the
    /// ring instead.
    recv_park: Parker,
}

/// The shared state of one unbounded channel.
///
/// Exactly one [`Sender`] and one [`Receiver`] address it.
pub struct Channel<T> {
    /// State written only through the sending end.
    producer: CacheAligned<ProducerSide>,
    /// The growable ring of pending items.
    buf: RingBuf<T>,
    /// The disconnect handshake counter.
    life: Lifecycle,
}

/// The sending end of an unbounded [`channel`].
pub struct Sender<T> {
    marker: PhantomData<T>,
}

/// The receiving end of an unbounded [`channel`].
pub struct Receiver<T> {
    marker: PhantomData<T>,
}

impl<T> Channel<T> {
    /// The pending items, oldest first.
    pub closed spec fn view(&self) -> Seq<T> {
        self.buf@
    }

    /// Whether no endpoint has started disconnecting yet.
    pub closed spec fn connected(&self) -> bool {
        self.life.connected()
    }

    /// Whether the sending endpoint is still up.
    pub closed spec fn sender_live(&self) -> bool {
        self.life.sender_live()
    }

    /// Whether the receiving endpoint is still up.
    pub closed spec fn receiver_live(&self) -> bool {
        self.life.receiver_live()
    }

    /// Whether a wake-up for the receiver is pending.
    pub closed spec fn receiver_notified(&self) -> bool {
        self.producer.value.recv_park.state() == ParkState::Notified
    }

    /// Well-formedness of the channel state.
    pub closed spec fn wf(&self) -> bool {
        &&& self.buf.wf()
        &&& self.life.wf()
        &&& self.producer.value.free_hint + self.buf@.len() <= self.buf.cap()
    }

    /// The channel is connected exactly while both endpoints are up.
    pub proof fn lemma_wf_facts(&self)
        requires
            self.wf(),
        ensures
            self.connected() <==> (self.sender_live() && self.receiver_live()),
    {
        self.life.lemma_connected_iff_both_live();
    }

    /// The number of pending items.
    pub fn len(&self) -> (r: usize)
        ensures
            r == self@.len(),
    {
        self.buf.length()
    }

    /// Consumes the channel state and hands back every item that was
    /// sent but never received, oldest first.
    ///
    /// This is the final stage of the teardown: whichever endpoint
    /// the handshake told to free the shared state drains the items
    /// still resident in it, so every sent item is handed out
    /// exactly once — either by a receive or by this drain.
    pub fn teardown(self) -> (r: Vec<T>)
        requires
            self.wf(),
        ensures
            r@ == self@,
    {
        let mut buf = self.buf;
        buf.take_all()
    }
}

/// Creates an unbounded channel, returning the shared state and its
/// two end handles.
pub fn channel<T>() -> (r: (Channel<T>, Sender<T>, Receiver<T>))
    ensures
        r.0.wf(),
        r.0@ == Seq::<T>::empty(),
        r.0.connected(),
        r.0.sender_live(),
        r.0.receiver_live(),
{
    let ch = Channel {
        producer: CacheAligned::new(ProducerSide { free_hint: 0, recv_park: Parker::new() }),
        buf: RingBuf::new(1),
        life: Lifecycle::new(),
    };
    (ch, Sender { marker: PhantomData }, Receiver { marker: PhantomData })
}

impl<T> Sender<T> {
    /// Sends a value through the channel.
    ///
    /// Never waits: when no vacated slot is free for reuse, the ring
    /// grows by one slot instead. Returns the item inside a
    /// [`SendError`] when the receiver is gone.
    pub fn send(&self, ch: &mut Channel<T>, item: T) -> (r: Result<(), SendError<T>>)
        requires
            old(ch).wf(),
            old(ch)@.len() < usize::MAX,
        ensures
            final(ch).wf(),
            final(ch).connected() == old(ch).connected(),
            final(ch).sender_live() == old(ch).sender_live(),
            final(ch).receiver_live() == old(ch).receiver_live(),
            old(ch).connected() ==> r is Ok && final(ch)@ == old(ch)@.push(item) && final(ch).receiver_notified(),
            !old(ch).connected() ==> r == Err::<(), SendError<T>>(SendError(item)) && final(ch)@
                == old(ch)@ && final(ch).receiver_notified() == old(ch).receiver_notified(),
    {
        if !ch.life.is_connected() {
            return Err(SendError(item));
        }
        proof {
            ch.buf.lemma_len_le_cap();
        }
        if ch.producer.value.free_hint == 0 {
            // the hint claims no slot is free: refresh it from the
            // live counts before allocating
            ch.producer.value.free_hint = ch.buf.capacity() - ch.buf.length();
            if ch.producer.value.free_hint == 0 {
                // nothing to recycle: allocate one fresh slot
                ch.buf.grow_one();
                ch.producer.value.free_hint = 1;
            }
        }
        ch.buf.push(item);
        ch.producer.value.free_hint = ch.producer.value.free_hint - 1;
        ch.producer.value.recv_park.unpark();
        Ok(())
    }

    /// Whether the receiving end is still connected.
    pub fn receiver_connected(&self, ch: &Channel<T>) -> (r: bool)
        ensures
            r == ch.connected(),
    {
        ch.life.is_connected()
    }

    /// Retires this sending end, running its half of the disconnect
    /// handshake. The result says whether this endpoint was the last
    /// one out and must free the shared state (see
    /// [`Channel::teardown`]); if the receiver is still up, a
    /// wake-up is posted for it instead so it observes the
    /// disconnect.
    pub fn disconnect(self, ch: &mut Channel<T>) -> (freed: bool)
        requires
            old(ch).wf(),
            old(ch).sender_live(),
        ensures
            final(ch).wf(),
            sender_disconnect_rel(*old(ch), *final(ch), freed),
    {
        let freed = ch.life.disconnect_sender();
        if !freed {
            ch.producer.value.recv_park.unpark();
        }
        freed
    }
}

impl<T> Receiver<T> {
    /// Tries to take the oldest pending value without waiting.
    ///
    /// Every item sent before a disconnect is still handed out;
    /// `Disconnected` appears only once the channel is drained and
    /// the sender is gone.
    pub fn try_recv(&self, ch: &mut Channel<T>) -> (r: Result<T, TryRecvError>)
        requires
            old(ch).wf(),
        ensures
            final(ch).wf(),
            final(ch).connected() == old(ch).connected(),
            final(ch).sender_live() == old(ch).sender_live(),
            final(ch).receiver_live() == old(ch).receiver_live(),
            final(ch).receiver_notified() == old(ch).receiver_notified(),
            old(ch)@.len() > 0 ==> r == Ok::<T, TryRecvError>(old(ch)@[0]) && final(ch)@ == old(
                ch,
            )@.drop_first(),
            old(ch)@.len() == 0 && old(ch).connected() ==> r == Err::<T, TryRecvError>(
                TryRecvError::Empty,
            ) && final(ch)@ == old(ch)@,
            old(ch)@.len() == 0 && !old(ch).connected() ==> r == Err::<T, TryRecvError>(
                TryRecvError::Disconnected,
            ) && final(ch)@ == old(ch)@,
    {
        if ch.buf.length() == 0 {
            if !ch.life.is_connected() {
                // nothing is pending and the sender is gone:
                // everything sent before the disconnect has already
                // been drained
                return Err(TryRecvError::Disconnected);
            }
            return Err(TryRecvError::Empty);
        }
        let item = ch.buf.pop();
        Ok(item)
    }

    /// Reads a value from the channel.
    ///
    /// Returns a [`RecvError`] once the channel is drained and the
    /// sender is gone. An empty channel with a live sender would
    /// have to wait for data; that call is excluded here, and an
    /// embedding drives the wait through [`Receiver::try_recv`] and
    /// the park flag.
    pub fn recv(&self, ch: &mut Channel<T>) -> (r: Result<T, RecvError>)
        requires
            old(ch).wf(),
            old(ch)@.len() > 0 || !old(ch).connected(),
        ensures
            final(ch).wf(),
            final(ch).connected() == old(ch).connected(),
            final(ch).sender_live() == old(ch).sender_live(),
            final(ch).receiver_live() == old(ch).receiver_live(),
            old(ch)@.len() > 0 ==> r == Ok::<T, RecvError>(old(ch)@[0]) && final(ch)@ == old(
                ch,
            )@.drop_first(),
            old(ch)@.len() == 0 ==> r == Err::<T, RecvError>(RecvError {}) && final(ch)@ == old(
                ch,
            )@,
    {
        match self.try_recv(ch) {
            Ok(item) => Ok(item),
            Err(TryRecvError::Disconnected) => Err(RecvError {}),
            Err(TryRecvError::Empty) => unreached(),
        }
    }

    /// Whether the sending end is still connected.
    ///
    /// Unlike [`Receiver::try_recv`], this does not take pending
    /// data into account: it reports the disconnect as soon as the
    /// sender is gone, even while sent items remain to be drained.
    pub fn sender_connected(&self, ch: &Channel<T>) -> (r: bool)
        ensures
            r == ch.connected(),
    {
        ch.life.is_connected()
    }

    /// Retires this receiving end, running its half of the
    /// disconnect handshake. The result says whether this endpoint
    /// was the last one out and must free the shared state (see
    /// [`Channel::teardown`]). The sender never sleeps on this
    /// flavor, so no wake-up is needed.
    pub fn disconnect(self, ch: &mut Channel<T>) -> (freed: bool)
        requires
            old(ch).wf(),
            old(ch).receiver_live(),
        ensures
            final(ch).wf(),
            receiver_disconnect_rel(*old(ch), *final(ch), freed),
    {
        ch.life.disconnect_receiver()
    }
}

/// What retiring the sending end does to the channel state: the
/// sender is gone, the pending items and the receiver's liveness are
/// untouched, the channel is no longer connected — for good — and the
/// caller is told to free the shared state exactly when the receiver
/// already left. A receiver that is still up gets a wake-up so it
/// observes the disconnect.
pub open spec fn sender_disconnect_rel<T>(pre: Channel<T>, post: Channel<T>, freed: bool) -> bool {
    &&& !post.sender_live()
    &&& post.receiver_live() == pre.receiver_live()
    &&& !post.connected()
    &&& post@ == pre@
    &&& freed == !pre.receiver_live()
    &&& (pre.receiver_live() ==> post.receiver_notified())
}

/// What retiring the receiving end does to the channel state; the
/// mirror image of [`sender_disconnect_rel`], except that no wake-up
/// is posted because the sender of this flavor never sleeps.
pub open spec fn receiver_disconnect_rel<T>(
    pre: Channel<T>,
    post: Channel<T>,
    freed: bool,
) -> bool {
    &&& !post.receiver_live()
    &&& post.sender_live() == pre.sender_live()
    &&& !post.connected()
    &&& post@ == pre@
    &&& freed == !pre.sender_live()
}

/// Drain before disconnect: the sender's retirement keeps every
/// pending item, [`Receiver::try_recv`] keeps handing out the front
/// of what is pending — in submission order — even though the
/// channel is disconnected, and by its contract it reports
/// `Disconnected` only once nothing is left.
pub proof fn lemma_drain_before_disconnect<T>(
    pre: Channel<T>,
    post: Channel<T>,
    freed: bool,
    k: int,
)
    requires
        sender_disconnect_rel(pre, post, freed),
        0 <= k < post@.len(),
    ensures
        post@ == pre@,
        post@.skip(k)[0] == pre@[k],
        post@.skip(k).drop_first() == post@.skip(k + 1),
{
    crate::spsc::lemma_fifo_order(post@, k);
}

/// The shared state is freed exactly once: whichever order the two
/// endpoints retire in, the handshake tells the first one out not to
/// free and the second one out to free, and the items sent but never
/// received survive untouched until that single free.
pub proof fn lemma_teardown_frees_once<T>(
    c0: Channel<T>,
    c1: Channel<T>,
    c2: Channel<T>,
    f1: bool,
    f2: bool,
)
    requires
        c0.wf(),
        c0.sender_live(),
        c0.receiver_live(),
        (sender_disconnect_rel(c0, c1, f1) && receiver_disconnect_rel(c1, c2, f2)) || (
        receiver_disconnect_rel(c0, c1, f1) && sender_disconnect_rel(c1, c2, f2)),
    ensures
        !f1,
        f2,
        c2@ == c0@,
        !c2.sender_live(),
        !c2.receiver_live(),
{
}

} // verus!

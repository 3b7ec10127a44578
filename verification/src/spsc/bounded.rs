//! A bounded single-producer single-consumer channel.
//!
//! The channel stores pending items in a fixed-capacity ring whose
//! size is the requested minimum capacity rounded up to the next
//! power of two. The channel state is a [`Channel`] value handed to
//! every operation; the [`Sender`] and [`Receiver`] handles address
//! its two ends, and each one runs the disconnect handshake when it
//! leaves. An embedding that wants the endpoints in different
//! threads keeps the [`Channel`] in a shared cell and drives the
//! embedded park flags around its own blocking primitive.

use vstd::prelude::*;
use vstd::pervasive::unreached;
use crate::spsc::lifecycle::Lifecycle;
use crate::spsc::ring::RingBuf;
use crate::util::CacheAligned;
use crate::util::park::{ParkState, Parker};
use core::marker::PhantomData;

pub use crate::error::{RecvError, SendError, TryRecvError, TrySendError};

verus! {

/// Whether `n` is a power of two.
pub open spec fn is_pow2(n: nat) -> bool
    decreases n,
{
    if n == 0 {
        false
    } else if n == 1 {
        true
    } else {
        n % 2 == 0 && is_pow2(n / 2)
    }
}

/// The producer-owned region of the channel state.
struct ProducerSide {
    /// The producer's conservative count of pending items. It never
    /// undercounts; it is refreshed from the live count only when it
    /// claims the channel is full.
    pending_hint: usize,
    /// The flag the receiver sleeps on; the producer posts to it.
    recv_park: Parker,
}

/// The consumer-owned region of the channel state.
struct ConsumerSide {
    /// The consumer's conservative count of pending items. It never
    /// overcounts; it is refreshed from the live count only when it
    /// claims the channel is empty.
    pending_hint: usize,
    /// The flag the producer sleeps on; the consumer posts to it.
    send_park: Parker,
}

/// The shared state of one bounded channel.
///
/// Exactly one [`Sender`] and one [`Receiver`] address it. The
/// producer-owned and consumer-owned regions are wrapped in
/// [`CacheAligned`] so an embedding can keep them on separate
/// false-sharing boundaries.
pub struct Channel<T> {
    /// State written only through the sending end.
    producer: CacheAligned<ProducerSide>,
    /// State written only through the receiving end.
    consumer: CacheAligned<ConsumerSide>,
    /// The ring of pending items.
    buf: RingBuf<T>,
    /// The disconnect handshake counter.
    life: Lifecycle,
}

/// The sending end of a bounded [`channel`].
pub struct Sender<T> {
    marker: PhantomData<T>,
}

/// The receiving end of a bounded [`channel`].
pub struct Receiver<T> {
    marker: PhantomData<T>,
}

impl<T> Channel<T> {
    /// The pending items, oldest first.
    pub closed spec fn view(&self) -> Seq<T> {
        self.buf@
    }

    /// The rounded-up capacity.
    pub closed spec fn cap(&self) -> int {
        self.buf.cap()
    }

    /// Whether no endpoint has started disconnecting yet.
    pub closed spec fn connected(&self) -> bool {
        self.life.connected()
    }

    /// Whether the sending endpoint is still up.
    pub closed spec fn sender_live(&self) -> bool {
        self.life.sender_live()
    }

    /// Whether the receiving endpoint is still up.
    pub closed spec fn receiver_live(&self) -> bool {
        self.life.receiver_live()
    }

    /// Whether a wake-up for the receiver is pending.
    pub closed spec fn receiver_notified(&self) -> bool {
        self.producer.value.recv_park.state() == ParkState::Notified
    }

    /// Whether a wake-up for the producer is pending.
    pub closed spec fn sender_notified(&self) -> bool {
        self.consumer.value.send_park.state() == ParkState::Notified
    }

    /// Well-formedness of the channel state.
    pub closed spec fn wf(&self) -> bool {
        &&& self.buf.wf()
        &&& self.life.wf()
        &&& self.cap() >= 1
        &&& is_pow2(self.cap() as nat)
        &&& self.buf@.len() <= self.producer.value.pending_hint <= self.cap()
        &&& self.consumer.value.pending_hint <= self.buf@.len()
    }

    /// The pending items always fit the capacity, and the channel is
    /// connected exactly while both endpoints are up.
    pub proof fn lemma_wf_facts(&self)
        requires
            self.wf(),
        ensures
            self@.len() <= self.cap(),
            self.connected() <==> (self.sender_live() && self.receiver_live()),
    {
        self.buf.lemma_len_le_cap();
        self.life.lemma_connected_iff_both_live();
    }

    /// The number of pending items.
    pub fn len(&self) -> (r: usize)
        ensures
            r == self@.len(),
    {
        self.buf.length()
    }

    /// The rounded-up capacity.
    pub fn capacity(&self) -> (r: usize)
        ensures
            r == self.cap(),
    {
        self.buf.capacity()
    }

    /// Consumes the channel state and hands back every item that was
    /// sent but never received, oldest first.
    ///
    /// This is the final stage of the teardown: whichever endpoint
    /// the handshake told to free the shared state drains the items
    /// still resident in it, so every sent item is handed out
    /// exactly once — either by a receive or by this drain.
    pub fn teardown(self) -> (r: Vec<T>)
        requires
            self.wf(),
        ensures
            r@ == self@,
    {
        let mut buf = self.buf;
        buf.take_all()
    }
}

/// Creates a bounded channel with room for at least `min_capacity`
/// items, returning the shared state and its two end handles.
///
/// The capacity is `min_capacity` rounded up to the next power of
/// two; a request so large that no power of two fits the index type
/// is excluded by the precondition.
pub fn channel<T>(min_capacity: usize) -> (r: (Channel<T>, Sender<T>, Receiver<T>))
    requires
        min_capacity <= usize::MAX / 2 + 1,
    ensures
        r.0.wf(),
        r.0@ == Seq::<T>::empty(),
        r.0.connected(),
        r.0.sender_live(),
        r.0.receiver_live(),
        r.0.cap() >= min_capacity,
        r.0.cap() >= 1,
        is_pow2(r.0.cap() as nat),
        r.0.cap() == 1 || r.0.cap() / 2 < min_capacity,
{
    let capacity = next_pow2_at_least(min_capacity);
    let ch = Channel {
        producer: CacheAligned::new(
            ProducerSide { pending_hint: 0, recv_park: Parker::new() },
        ),
        consumer: CacheAligned::new(
            ConsumerSide { pending_hint: 0, send_park: Parker::new() },
        ),
        buf: RingBuf::new(capacity),
        life: Lifecycle::new(),
    };
    (ch, Sender { marker: PhantomData }, Receiver { marker: PhantomData })
}

/// The least power of two that is at least `n` (and at least one).
fn next_pow2_at_least(n: usize) -> (r: usize)
    requires
        n <= usize::MAX / 2 + 1,
    ensures
        r >= n,
        r >= 1,
        is_pow2(r as nat),
        r == 1 || r / 2 < n,
{
    let mut cap: usize = 1;
    while cap < n
        invariant
            n <= usize::MAX / 2 + 1,
            cap >= 1,
            is_pow2(cap as nat),
            cap == 1 || cap / 2 < n,
        decreases 2 * n - cap,
    {
        cap = cap * 2;
    }
    cap
}

impl<T> Sender<T> {
    /// Tries to send a value through the channel without waiting.
    ///
    /// The item is handed back inside the error when the receiver is
    /// gone or the channel is full; in the full case a wake-up for
    /// the receiver is posted first.
    pub fn try_send(&self, ch: &mut Channel<T>, item: T) -> (r: Result<(), TrySendError<T>>)
        requires
            old(ch).wf(),
        ensures
            final(ch).wf(),
            final(ch).cap() == old(ch).cap(),
            final(ch).connected() == old(ch).connected(),
            final(ch).sender_live() == old(ch).sender_live(),
            final(ch).receiver_live() == old(ch).receiver_live(),
            final(ch).sender_notified() == old(ch).sender_notified(),
            !old(ch).connected() ==> r == Err::<(), TrySendError<T>>(
                TrySendError::Disconnected(item),
            ) && final(ch)@ == old(ch)@ && final(ch).receiver_notified() == old(
                ch,
            ).receiver_notified(),
            old(ch).connected() && old(ch)@.len() < old(ch).cap() ==> r is Ok && final(ch)@ == old(
                ch,
            )@.push(item) && final(ch).receiver_notified(),
            old(ch).connected() && old(ch)@.len() == old(ch).cap() ==> r == Err::<
                (),
                TrySendError<T>,
            >(TrySendError::Full(item)) && final(ch)@ == old(ch)@ && final(ch).receiver_notified(),
    {
        proof {
            ch.buf.lemma_len_le_cap();
        }
        if !ch.life.is_connected() {
            return Err(TrySendError::Disconnected(item));
        }
        let cap = ch.buf.capacity();
        if ch.producer.value.pending_hint == cap {
            // the hint claims the channel is full: refresh it from
            // the live count before giving up
            ch.producer.value.pending_hint = ch.buf.length();
            if ch.producer.value.pending_hint == cap {
                ch.producer.value.recv_park.unpark();
                return Err(TrySendError::Full(item));
            }
        }
        ch.buf.push(item);
        ch.producer.value.pending_hint = ch.producer.value.pending_hint + 1;
        ch.producer.value.recv_park.unpark();
        Ok(())
    }

    /// Sends a value through the channel.
    ///
    /// Returns the item inside a [`SendError`] when the receiver is
    /// gone. A full channel with a live receiver would have to wait
    /// for room; that call is excluded here, and an embedding drives
    /// the wait through [`Sender::try_send`] and the park flags.
    pub fn send(&self, ch: &mut Channel<T>, item: T) -> (r: Result<(), SendError<T>>)
        requires
            old(ch).wf(),
            old(ch)@.len() < old(ch).cap() || !old(ch).connected(),
        ensures
            final(ch).wf(),
            final(ch).cap() == old(ch).cap(),
            final(ch).connected() == old(ch).connected(),
            final(ch).sender_live() == old(ch).sender_live(),
            final(ch).receiver_live() == old(ch).receiver_live(),
            old(ch).connected() ==> r is Ok && final(ch)@ == old(ch)@.push(item) && final(ch).receiver_notified(),
            !old(ch).connected() ==> r == Err::<(), SendError<T>>(SendError(item)) && final(ch)@
                == old(ch)@,
    {
        match self.try_send(ch, item) {
            Ok(()) => Ok(()),
            Err(TrySendError::Disconnected(it)) => Err(SendError(it)),
            Err(TrySendError::Full(_)) => unreached(),
        }
    }

    /// Whether the receiving end is still connected.
    pub fn receiver_connected(&self, ch: &Channel<T>) -> (r: bool)
        ensures
            r == ch.connected(),
    {
        ch.life.is_connected()
    }

    /// Retires this sending end, running its half of the disconnect
    /// handshake. The result says whether this endpoint was the last
    /// one out and must free the shared state (see
    /// [`Channel::teardown`]); if the receiver is still up, a
    /// wake-up is posted for it instead so it observes the
    /// disconnect.
    pub fn disconnect(self, ch: &mut Channel<T>) -> (freed: bool)
        requires
            old(ch).wf(),
            old(ch).sender_live(),
        ensures
            final(ch).wf(),
            sender_disconnect_rel(*old(ch), *final(ch), freed),
    {
        let freed = ch.life.disconnect_sender();
        if !freed {
            ch.producer.value.recv_park.unpark();
        }
        freed
    }
}

impl<T> Receiver<T> {
    /// Tries to take the oldest pending value without waiting.
    ///
    /// Every item sent before a disconnect is still handed out;
    /// `Disconnected` appears only once the channel is drained and
    /// the sender is gone.
    pub fn try_recv(&self, ch: &mut Channel<T>) -> (r: Result<T, TryRecvError>)
        requires
            old(ch).wf(),
        ensures
            final(ch).wf(),
            final(ch).cap() == old(ch).cap(),
            final(ch).connected() == old(ch).connected(),
            final(ch).sender_live() == old(ch).sender_live(),
            final(ch).receiver_live() == old(ch).receiver_live(),
            final(ch).receiver_notified() == old(ch).receiver_notified(),
            old(ch)@.len() > 0 ==> r == Ok::<T, TryRecvError>(old(ch)@[0]) && final(ch)@ == old(
                ch,
            )@.drop_first() && final(ch).sender_notified(),
            old(ch)@.len() == 0 && old(ch).connected() ==> r == Err::<T, TryRecvError>(
                TryRecvError::Empty,
            ) && final(ch)@ == old(ch)@ && final(ch).sender_notified(),
            old(ch)@.len() == 0 && !old(ch).connected() ==> r == Err::<T, TryRecvError>(
                TryRecvError::Disconnected,
            ) && final(ch)@ == old(ch)@ && final(ch).sender_notified() == old(ch).sender_notified(),
    {
        if ch.consumer.value.pending_hint == 0 {
            // the hint claims the channel is empty: refresh it from
            // the live count before deciding
            ch.consumer.value.pending_hint = ch.buf.length();
            if ch.consumer.value.pending_hint == 0 {
                if !ch.life.is_connected() {
                    // nothing was pending at the refresh above and
                    // the sender is gone: everything sent before the
                    // disconnect has already been drained
                    return Err(TryRecvError::Disconnected);
                }
                ch.consumer.value.send_park.unpark();
                return Err(TryRecvError::Empty);
            }
        }
        let item = ch.buf.pop();
        ch.consumer.value.pending_hint = ch.consumer.value.pending_hint - 1;
        ch.consumer.value.send_park.unpark();
        Ok(item)
    }

    /// Reads a value from the channel.
    ///
    /// Returns a [`RecvError`] once the channel is drained and the
    /// sender is gone. An empty channel with a live sender would
    /// have to wait for data; that call is excluded here, and an
    /// embedding drives the wait through [`Receiver::try_recv`] and
    /// the park flags.
    pub fn recv(&self, ch: &mut Channel<T>) -> (r: Result<T, RecvError>)
        requires
            old(ch).wf(),
            old(ch)@.len() > 0 || !old(ch).connected(),
        ensures
            final(ch).wf(),
            final(ch).cap() == old(ch).cap(),
            final(ch).connected() == old(ch).connected(),
            final(ch).sender_live() == old(ch).sender_live(),
            final(ch).receiver_live() == old(ch).receiver_live(),
            old(ch)@.len() > 0 ==> r == Ok::<T, RecvError>(old(ch)@[0]) && final(ch)@ == old(
                ch,
            )@.drop_first(),
            old(ch)@.len() == 0 ==> r == Err::<T, RecvError>(RecvError {}) && final(ch)@ == old(
                ch,
            )@,
    {
        match self.try_recv(ch) {
            Ok(item) => Ok(item),
            Err(TryRecvError::Disconnected) => Err(RecvError {}),
            Err(TryRecvError::Empty) => unreached(),
        }
    }

    /// Whether the sending end is still connected.
    ///
    /// Unlike [`Receiver::try_recv`], this does not take pending
    /// data into account: it reports the disconnect as soon as the
    /// sender is gone, even while sent items remain to be drained.
    pub fn sender_connected(&self, ch: &Channel<T>) -> (r: bool)
        ensures
            r == ch.connected(),
    {
        ch.life.is_connected()
    }

    /// Retires this receiving end, running its half of the
    /// disconnect handshake. The result says whether this endpoint
    /// was the last one out and must free the shared state (see
    /// [`Channel::teardown`]); if the sender is still up, a wake-up
    /// is posted for it instead so it observes the disconnect.
    pub fn disconnect(self, ch: &mut Channel<T>) -> (freed: bool)
        requires
            old(ch).wf(),
            old(ch).receiver_live(),
        ensures
            final(ch).wf(),
            receiver_disconnect_rel(*old(ch), *final(ch), freed),
    {
        let freed = ch.life.disconnect_receiver();
        if !freed {
            ch.consumer.value.send_park.unpark();
        }
        freed
    }
}

/// What retiring the sending end does to the channel state: the
/// sender is gone, the pending items and the receiver's liveness are
/// untouched, the channel is no longer connected — for good — and the
/// caller is told to free the shared state exactly when the receiver
/// already left. A receiver that is still up gets a wake-up so it
/// observes the disconnect.
pub open spec fn sender_disconnect_rel<T>(pre: Channel<T>, post: Channel<T>, freed: bool) -> bool {
    &&& !post.sender_live()
    &&& post.receiver_live() == pre.receiver_live()
    &&& !post.connected()
    &&& post@ == pre@
    &&& post.cap() == pre.cap()
    &&& freed == !pre.receiver_live()
    &&& (pre.receiver_live() ==> post.receiver_notified())
}

/// What retiring the receiving end does to the channel state; the
/// mirror image of [`sender_disconnect_rel`].
pub open spec fn receiver_disconnect_rel<T>(
    pre: Channel<T>,
    post: Channel<T>,
    freed: bool,
) -> bool {
    &&& !post.receiver_live()
    &&& post.sender_live() == pre.sender_live()
    &&& !post.connected()
    &&& post@ == pre@
    &&& post.cap() == pre.cap()
    &&& freed == !pre.sender_live()
    &&& (pre.sender_live() ==> post.sender_notified())
}

/// Capacity bound: consecutive successful sends with no interleaved
/// receive each append one item, so starting from an empty channel,
/// as many of them as the rounded-up capacity leave the channel
/// exactly full — and on a full, connected channel the contract of
/// [`Sender::try_send`] admits only `Full` for the next attempt.
pub proof fn lemma_capacity_bound<T>(c: Channel<T>, vs: Seq<T>)
    requires
        c.wf(),
        c@ == crate::spsc::after_sends(Seq::<T>::empty(), vs),
        vs.len() == c.cap(),
    ensures
        c@ == vs,
        c@.len() == c.cap(),
{
    crate::spsc::lemma_sends_append(Seq::<T>::empty(), vs);
    assert(Seq::<T>::empty() + vs =~= vs);
}

/// Drain before disconnect: the sender's retirement keeps every
/// pending item, [`Receiver::try_recv`] keeps handing out the front
/// of what is pending — in submission order — even though the
/// channel is disconnected, and by its contract it reports
/// `Disconnected` only once nothing is left.
pub proof fn lemma_drain_before_disconnect<T>(
    pre: Channel<T>,
    post: Channel<T>,
    freed: bool,
    k: int,
)
    requires
        sender_disconnect_rel(pre, post, freed),
        0 <= k < post@.len(),
    ensures
        post@ == pre@,
        post@.skip(k)[0] == pre@[k],
        post@.skip(k).drop_first() == post@.skip(k + 1),
{
    crate::spsc::lemma_fifo_order(post@, k);
}

/// The shared state is freed exactly once: whichever order the two
/// endpoints retire in, the handshake tells the first one out not to
/// free and the second one out to free, and the items sent but never
/// received survive untouched until that single free.
pub proof fn lemma_teardown_frees_once<T>(
    c0: Channel<T>,
    c1: Channel<T>,
    c2: Channel<T>,
    f1: bool,
    f2: bool,
)
    requires
        c0.wf(),
        c0.sender_live(),
        c0.receiver_live(),
        (sender_disconnect_rel(c0, c1, f1) && receiver_disconnect_rel(c1, c2, f2)) || (
        receiver_disconnect_rel(c0, c1, f1) && sender_disconnect_rel(c1, c2, f2)),
    ensures
        !f1,
        f2,
        c2@ == c0@,
        !c2.sender_live(),
        !c2.receiver_live(),
{
}

} // verus!

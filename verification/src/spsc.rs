//! Single-producer single-consumer queue flavors.
//!
//! The module offers a plain fixed-capacity [`Queue`] whose capacity
//! is part of its type, together with two channel flavors that add a
//! disconnect handshake between the two endpoints: the fixed-capacity
//! [`bounded`] channel and the growable [`unbounded`] channel.
//!
//! Every queue is modeled by the sequence of its pending items,
//! oldest first: a successful push appends to the back of that
//! sequence and a successful pop removes its front, so delivery
//! order always equals submission order. The queue state is a value
//! passed explicitly to each operation; an embedding that wants the
//! two endpoints in different threads wraps that state in a shared
//! cell of its choosing and keeps the endpoint handles apart.

mod lifecycle;
mod ring;

pub mod bounded;
pub mod unbounded;

use vstd::prelude::*;
use crate::spsc::ring::RingBuf;
use core::marker::PhantomData;

verus! {

/// A fixed-capacity FIFO queue holding at most `N` items.
///
/// `N` must be at least one. The two ends of the queue are addressed
/// through the [`Producer`] and [`Consumer`] handles returned by
/// [`Queue::split`].
pub struct Queue<T, const N: usize> {
    buf: RingBuf<T>,
}

/// The pushing end of a [`Queue`]; obtained from [`Queue::split`].
pub struct Producer<T, const N: usize> {
    marker: PhantomData<T>,
}

/// The popping end of a [`Queue`]; obtained from [`Queue::split`].
pub struct Consumer<T, const N: usize> {
    marker: PhantomData<T>,
}

/// A pushing handle for embeddings that keep the queue behind a
/// reference instead of handing it around by value.
pub struct RefProducer<'q, T, const N: usize> {
    marker: PhantomData<&'q T>,
}

/// A popping handle for embeddings that keep the queue behind a
/// reference instead of handing it around by value.
pub struct RefConsumer<'q, T, const N: usize> {
    marker: PhantomData<&'q T>,
}

/// The pending sequence after the items `vs` are submitted in order
/// on top of `pending`: each successful send appends one item at the
/// back, which is exactly what the send operations of every flavor
/// ensure.
pub open spec fn after_sends<T>(pending: Seq<T>, vs: Seq<T>) -> Seq<T>
    decreases vs.len(),
{
    if vs.len() == 0 {
        pending
    } else {
        after_sends(pending.push(vs[0]), vs.drop_first())
    }
}

/// Submitting `vs` in order leaves `pending + vs` pending.
pub proof fn lemma_sends_append<T>(pending: Seq<T>, vs: Seq<T>)
    ensures
        after_sends(pending, vs) == pending + vs,
    decreases vs.len(),
{
    if vs.len() == 0 {
        assert(after_sends(pending, vs) =~= pending + vs);
    } else {
        lemma_sends_append(pending.push(vs[0]), vs.drop_first());
        assert(pending.push(vs[0]) + vs.drop_first() =~= pending + vs);
    }
}

/// First-in first-out delivery, end to end: sends of `v1..vn`
/// completed before any receive leave exactly `v1..vn` pending —
/// neither more, fewer, nor reordered — and the `k`-th receive
/// (counting from zero) then yields `vs[k]`, because every receive
/// takes the front of what is pending.
pub proof fn lemma_fifo_delivery<T>(vs: Seq<T>, k: int)
    requires
        0 <= k < vs.len(),
    ensures
        after_sends(Seq::<T>::empty(), vs) == vs,
        after_sends(Seq::<T>::empty(), vs).skip(k)[0] == vs[k],
{
    lemma_sends_append(Seq::<T>::empty(), vs);
    assert(Seq::<T>::empty() + vs =~= vs);
    lemma_fifo_order(vs, k);
}

/// First-in first-out delivery. Every push appends to the back of
/// the pending sequence and every pop takes its front, so when a
/// queue holds the items `vs`, the `k`-th pop from it (counting from
/// zero) yields `vs[k]`: the front of what is left after `k` pops is
/// `vs[k]`, and one more pop leaves exactly the items behind index
/// `k`. Items are delivered in the order they were submitted.
pub proof fn lemma_fifo_order<T>(vs: Seq<T>, k: int)
    requires
        0 <= k < vs.len(),
    ensures
        vs.skip(k)[0] == vs[k],
        vs.skip(k).drop_first() == vs.skip(k + 1),
{
    assert(vs.skip(k)[0] == vs[k]);
    assert(vs.skip(k).drop_first() =~= vs.skip(k + 1));
}

impl<T, const N: usize> Queue<T, N> {
    /// Well-formedness: the backing ring has exactly `N` slots.
    pub closed spec fn wf(&self) -> bool {
        &&& self.buf.wf()
        &&& self.buf.cap() == N as int
        &&& N >= 1
    }

    /// The pending items, oldest first.
    pub closed spec fn view(&self) -> Seq<T> {
        self.buf@
    }

    /// The pending items always fit the capacity.
    pub proof fn lemma_wf_facts(&self)
        requires
            self.wf(),
        ensures
            self@.len() <= N,
    {
        self.buf.lemma_len_le_cap();
    }

    /// Creates an empty queue.
    pub fn new() -> (r: Self)
        requires
            N >= 1,
        ensures
            r.wf(),
            r@ == Seq::<T>::empty(),
    {
        Queue { buf: RingBuf::new(N) }
    }

    /// Appends `item`, or hands it back if the queue is full.
    pub fn push(&mut self, item: T) -> (r: Result<(), T>)
        requires
            old(self).wf(),
        ensures
            final(self).wf(),
            old(self)@.len() < N ==> r is Ok && final(self)@ == old(self)@.push(item),
            old(self)@.len() == N ==> r == Err::<(), T>(item) && final(self)@ == old(self)@,
    {
        proof {
            self.buf.lemma_len_le_cap();
        }
        if self.buf.length() == self.buf.capacity() {
            Err(item)
        } else {
            self.buf.push(item);
            Ok(())
        }
    }

    /// Removes and returns the oldest item, or `None` if the queue
    /// is empty.
    pub fn pop(&mut self) -> (r: Option<T>)
        requires
            old(self).wf(),
        ensures
            final(self).wf(),
            old(self)@.len() == 0 ==> r is None && final(self)@ == old(self)@,
            old(self)@.len() > 0 ==> r == Some(old(self)@[0]) && final(self)@ == old(
                self,
            )@.drop_first(),
    {
        if self.buf.length() == 0 {
            None
        } else {
            Some(self.buf.pop())
        }
    }

    /// Splits the queue into its two end handles, returning the
    /// queue state alongside them.
    ///
    /// The handles carry no data of their own; they exist so an
    /// embedding can give the pushing end and the popping end to two
    /// different owners while the queue state itself sits in a
    /// shared cell.
    pub fn split(self) -> (r: (Self, Producer<T, N>, Consumer<T, N>))
        ensures
            r.0 == self,
    {
        (self, Producer { marker: PhantomData }, Consumer { marker: PhantomData })
    }

    /// Splits a borrowed queue into reference-flavored end handles.
    pub fn ref_split<'a>(&self) -> (r: (RefProducer<'a, T, N>, RefConsumer<'a, T, N>)) {
        (RefProducer { marker: PhantomData }, RefConsumer { marker: PhantomData })
    }
}

impl<T, const N: usize> Producer<T, N> {
    /// Pushes `item` onto `q` or returns `Err` with `item` inside if
    /// the queue is full.
    pub fn push(&self, q: &mut Queue<T, N>, item: T) -> (r: Result<(), T>)
        requires
            old(q).wf(),
        ensures
            final(q).wf(),
            old(q)@.len() < N ==> r is Ok && final(q)@ == old(q)@.push(item),
            old(q)@.len() == N ==> r == Err::<(), T>(item) && final(q)@ == old(q)@,
    {
        q.push(item)
    }
}

impl<T, const N: usize> Consumer<T, N> {
    /// Pops an item from `q` or returns `None` if the queue is
    /// empty.
    pub fn pop(&self, q: &mut Queue<T, N>) -> (r: Option<T>)
        requires
            old(q).wf(),
        ensures
            final(q).wf(),
            old(q)@.len() == 0 ==> r is None && final(q)@ == old(q)@,
            old(q)@.len() > 0 ==> r == Some(old(q)@[0]) && final(q)@ == old(q)@.drop_first(),
    {
        q.pop()
    }
}

impl<'q, T, const N: usize> RefProducer<'q, T, N> {
    /// Pushes `item` onto `q` or returns `Err` with `item` inside if
    /// the queue is full.
    pub fn push(&self, q: &mut Queue<T, N>, item: T) -> (r: Result<(), T>)
        requires
            old(q).wf(),
        ensures
            final(q).wf(),
            old(q)@.len() < N ==> r is Ok && final(q)@ == old(q)@.push(item),
            old(q)@.len() == N ==> r == Err::<(), T>(item) && final(q)@ == old(q)@,
    {
        q.push(item)
    }
}

impl<'q, T, const N: usize> RefConsumer<'q, T, N> {
    /// Pops an item from `q` or returns `None` if the queue is
    /// empty.
    pub fn pop(&self, q: &mut Queue<T, N>) -> (r: Option<T>)
        requires
            old(q).wf(),
        ensures
            final(q).wf(),
            old(q)@.len() == 0 ==> r is None && final(q)@ == old(q)@,
            old(q)@.len() > 0 ==> r == Some(old(q)@[0]) && final(q)@ == old(q)@.drop_first(),
    {
        q.pop()
    }
}

} // verus!

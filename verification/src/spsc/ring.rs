//! The circular-buffer core shared by the queue flavors.
//!
//! A `RingBuf` stores its pending items in a fixed block of slots,
//! addressed by a read cursor plus an item count. Every slot holds an
//! `Option`: occupied slots are exactly the ones inside the pending
//! window, so an item is resident in the buffer if and only if it has
//! been pushed and not yet popped.

use vstd::prelude::*;
use vstd::arithmetic::div_mod::{lemma_small_mod, lemma_mod_sub_multiples_vanish};

verus! {

/// A fixed-capacity circular buffer holding the pending items of a
/// queue.
pub(crate) struct RingBuf<T> {
    /// The backing slots; `None` marks a vacant slot.
    slots: Vec<Option<T>>,
    /// Index of the slot holding the oldest pending item.
    head: usize,
    /// Number of pending items.
    len: usize,
}

/// The offset of slot `j` from the read cursor `head`, walking
/// forward around a ring of `c` slots.
pub(crate) open spec fn ring_offset(head: int, j: int, c: int) -> int {
    (j - head + c) % c
}

/// Closed form of [`ring_offset`] for in-range arguments.
proof fn lemma_ring_offset(head: int, j: int, c: int)
    requires
        0 <= head < c,
        0 <= j < c,
    ensures
        ring_offset(head, j, c) == if j >= head {
            j - head
        } else {
            j - head + c
        },
        0 <= ring_offset(head, j, c) < c,
{
    if j >= head {
        lemma_mod_sub_multiples_vanish(j - head + c, c);
        lemma_small_mod((j - head) as nat, c as nat);
    } else {
        lemma_small_mod((j - head + c) as nat, c as nat);
    }
}

/// Closed form of the slot index `(head + i) % c` of the `i`-th item
/// behind the read cursor.
proof fn lemma_ring_slot(head: int, i: int, c: int)
    requires
        0 <= head < c,
        0 <= i < c,
    ensures
        (head + i) % c == if head + i < c {
            head + i
        } else {
            head + i - c
        },
{
    if head + i < c {
        lemma_small_mod((head + i) as nat, c as nat);
    } else {
        lemma_mod_sub_multiples_vanish(head + i, c);
        lemma_small_mod((head + i - c) as nat, c as nat);
    }
}

impl<T> RingBuf<T> {
    /// Number of slots in the backing block.
    pub(crate) closed spec fn cap(&self) -> int {
        self.slots@.len() as int
    }

    /// The slot that the `i`-th pending item occupies.
    pub(crate) closed spec fn slot_of(&self, i: int) -> int {
        (self.head + i) % self.cap()
    }

    /// Well-formedness: the cursor and count are in range, and a slot
    /// is occupied exactly when it lies inside the pending window.
    pub(crate) closed spec fn wf(&self) -> bool {
        &&& self.cap() >= 1
        &&& self.head < self.cap()
        &&& self.len <= self.cap()
        &&& forall|j: int|
            0 <= j < self.cap() ==> ((#[trigger] self.slots@[j]) is Some <==> ring_offset(
                self.head as int,
                j,
                self.cap(),
            ) < self.len)
    }

    /// The pending items, oldest first.
    pub(crate) closed spec fn view(&self) -> Seq<T> {
        Seq::new(self.len as nat, |i: int| self.slots@[self.slot_of(i)]->Some_0)
    }

    /// The pending-item count never exceeds the slot count.
    pub(crate) proof fn lemma_len_le_cap(&self)
        requires
            self.wf(),
        ensures
            self@.len() <= self.cap(),
    {
    }

    /// Creates an empty buffer with `cap` slots.
    pub(crate) fn new(cap: usize) -> (r: Self)
        requires
            cap >= 1,
        ensures
            r.wf(),
            r.cap() == cap,
            r@ == Seq::<T>::empty(),
    {
        let mut slots: Vec<Option<T>> = Vec::new();
        let mut i: usize = 0;
        while i < cap
            invariant
                i <= cap,
                slots@.len() == i,
                forall|j: int| 0 <= j < i ==> (#[trigger] slots@[j]) is None,
            decreases cap - i,
        {
            slots.push(None);
            i = i + 1;
        }
        let r = RingBuf { slots, head: 0, len: 0 };
        proof {
            assert forall|j: int| 0 <= j < r.cap() implies !((#[trigger] r.slots@[j]) is Some)
                by {}
            assert(r@ =~= Seq::<T>::empty());
        }
        r
    }

    /// Number of pending items.
    pub(crate) fn length(&self) -> (r: usize)
        ensures
            r == self@.len(),
    {
        self.len
    }

    /// Number of slots.
    pub(crate) fn capacity(&self) -> (r: usize)
        ensures
            r == self.cap(),
    {
        self.slots.len()
    }

    /// Appends an item behind the newest pending item.
    pub(crate) fn push(&mut self, item: T)
        requires
            old(self).wf(),
            old(self)@.len() < old(self).cap(),
        ensures
            final(self).wf(),
            final(self).cap() == old(self).cap(),
            final(self)@ == old(self)@.push(item),
    {
        let cap = self.slots.len();
        let idx = if self.len < cap - self.head {
            self.head + self.len
        } else {
            self.len - (cap - self.head)
        };
        proof {
            lemma_ring_slot(self.head as int, self.len as int, cap as int);
            assert(idx == self.slot_of(self.len as int));
            lemma_ring_offset(self.head as int, idx as int, cap as int);
            assert(self.slots@[idx as int] is None);
        }
        self.slots[idx] = Some(item);
        self.len = self.len + 1;
        proof {
            let prev = *old(self);
            let c = cap as int;
            let h = self.head as int;
            assert forall|j: int| 0 <= j < c implies ((#[trigger] self.slots@[j]) is Some
                <==> ring_offset(h, j, c) < self.len) by {
                lemma_ring_offset(h, j, c);
                if j != idx {
                    assert(self.slots@[j] == prev.slots@[j]);
                }
            }
            assert forall|i: int| 0 <= i < self.len implies #[trigger] self@[i] == prev@.push(
                item,
            )[i] by {
                lemma_ring_slot(h, i, c);
                lemma_ring_slot(h, prev.len as int, c);
                if i < prev.len {
                    assert(self.slot_of(i) != idx);
                    assert(self.slots@[self.slot_of(i)] == prev.slots@[prev.slot_of(i)]);
                }
            }
            assert(self@ =~= old(self)@.push(item));
        }
    }

    /// Removes and returns the oldest pending item.
    pub(crate) fn pop(&mut self) -> (r: T)
        requires
            old(self).wf(),
            old(self)@.len() > 0,
        ensures
            final(self).wf(),
            final(self).cap() == old(self).cap(),
            r == old(self)@[0],
            final(self)@ == old(self)@.drop_first(),
    {
        let cap = self.slots.len();
        proof {
            lemma_ring_slot(self.head as int, 0, cap as int);
            assert(self.slot_of(0) == self.head);
            lemma_ring_offset(self.head as int, self.head as int, cap as int);
            assert(self.slots@[self.head as int] is Some);
        }
        let slot = &mut self.slots[self.head];
        let taken = slot.take();
        let r = taken.unwrap();
        let old_head = self.head;
        self.head = if self.head + 1 == cap {
            0
        } else {
            self.head + 1
        };
        self.len = self.len - 1;
        proof {
            let prev = *old(self);
            let c = cap as int;
            let h = self.head as int;
            assert(r == prev@[0]);
            assert forall|j: int| 0 <= j < c implies ((#[trigger] self.slots@[j]) is Some
                <==> ring_offset(h, j, c) < self.len) by {
                lemma_ring_offset(h, j, c);
                lemma_ring_offset(prev.head as int, j, c);
                if j != old_head {
                    assert(self.slots@[j] == prev.slots@[j]);
                }
            }
            assert forall|i: int| 0 <= i < self.len implies #[trigger] self@[i]
                == prev@.drop_first()[i] by {
                lemma_ring_slot(h, i, c);
                lemma_ring_slot(prev.head as int, i + 1, c);
                assert(self.slot_of(i) == prev.slot_of(i + 1));
                lemma_ring_offset(prev.head as int, prev.slot_of(i + 1), c);
                assert(self.slots@[self.slot_of(i)] == prev.slots@[prev.slot_of(i + 1)]);
            }
            assert(self@ =~= old(self)@.drop_first());
        }
        r
    }

    /// Adds one vacant slot to the ring, keeping the pending items.
    ///
    /// This is the growth step of the unbounded flavor: one fresh
    /// slot is allocated only when every existing slot is in use.
    pub(crate) fn grow_one(&mut self)
        requires
            old(self).wf(),
            old(self).cap() < usize::MAX,
        ensures
            final(self).wf(),
            final(self).cap() == old(self).cap() + 1,
            final(self)@ == old(self)@,
    {
        proof {
            self.lemma_len_le_cap();
        }
        let mut moved = self.take_all();
        proof {
            let c = self.cap();
            let h = self.head as int;
            assert(self@.len() == self.len);
            assert forall|j: int| 0 <= j < c implies !((#[trigger] self.slots@[j]) is Some) by {
                lemma_ring_offset(h, j, c);
            }
        }
        self.slots.push(None);
        self.head = 0;
        proof {
            assert forall|j: int| 0 <= j < self.cap() implies ((#[trigger] self.slots@[j]) is Some
                <==> ring_offset(0, j, self.cap()) < self.len) by {
                lemma_ring_offset(0, j, self.cap());
            }
            assert(self.wf());
            assert(self@ =~= Seq::<T>::empty());
            assert(self@ + moved@ =~= old(self)@);
        }
        while moved.len() > 0
            invariant
                self.wf(),
                self.cap() == old(self).cap() + 1,
                self@ + moved@ == old(self)@,
                old(self)@.len() <= old(self).cap(),
            decreases moved.len(),
        {
            let v = moved.remove(0);
            self.push(v);
            proof {
                assert(self@ + moved@ =~= old(self)@);
            }
        }
        proof {
            assert(self@ =~= old(self)@);
        }
    }

    /// Removes every pending item, oldest first.
    pub(crate) fn take_all(&mut self) -> (r: Vec<T>)
        requires
            old(self).wf(),
        ensures
            final(self).wf(),
            final(self).cap() == old(self).cap(),
            final(self)@ == Seq::<T>::empty(),
            r@ == old(self)@,
    {
        let mut r: Vec<T> = Vec::new();
        while self.len > 0
            invariant
                self.wf(),
                self.cap() == old(self).cap(),
                r@ + self@ == old(self)@,
            decreases self.len,
        {
            let v = self.pop();
            r.push(v);
        }
        proof {
            assert(self@ =~= Seq::<T>::empty());
            assert(r@ =~= old(self)@);
        }
        r
    }
}

} // verus!

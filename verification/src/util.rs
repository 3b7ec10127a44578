//! Small helpers shared by the queue flavors.

pub mod park;

use vstd::prelude::*;

verus! {

/// A wrapper that keeps its payload apart from unrelated data.
///
/// Producer-owned and consumer-owned channel state is wrapped in this
/// type so an embedding can keep the two regions on separate
/// false-sharing boundaries; the wrapper itself only carries the
/// payload.
pub struct CacheAligned<T> {
    /// The wrapped payload.
    pub value: T,
}

impl<T> CacheAligned<T> {
    /// Wraps `t`.
    pub fn new(t: T) -> (r: Self)
        ensures
            r.value == t,
    {
        CacheAligned { value: t }
    }

    /// Gives the payload back.
    pub fn into_inner(self) -> (r: T)
        ensures
            r == self.value,
    {
        self.value
    }
}

} // verus!

//! The growable geometry buffer backing a layer's contents.
//!
//! Writers reserve a block of slots at the current logical length and fill it;
//! the length only ever covers completed writes, so a snapshot never observes
//! a partially written element. In this model every append — reservation plus
//! fill — is a single atomic step, the discipline under which the length
//! counter publishes completed writes only. A reservation that would exceed
//! the capacity first grows the store (doubling, or directly to the needed
//! size); growth is the single blocking point for writers and never shrinks
//! the store.

use vstd::prelude::*;

verus! {

/// How the logical capacity grows to admit `need` elements: unchanged if
/// `need` already fits, otherwise doubled, or raised directly to `need` if
/// doubling is not enough (saturating at the address-space limit).
pub open spec fn grown_capacity(cap: nat, need: nat) -> nat {
    if need <= cap {
        cap
    } else if 2 * cap > need {
        if 2 * cap <= usize::MAX {
            2 * cap
        } else {
            usize::MAX as nat
        }
    } else {
        need
    }
}

/// A contiguous store with a logical length and a capacity. All slots below
/// the logical length are fully initialized; clearing resets the length
/// without giving the backing store up.
pub struct AppendBuffer<T> {
    data: Vec<T>,
    cap: usize,
}

impl<T> View for AppendBuffer<T> {
    type V = Seq<T>;

    /// The completed contents, in append order.
    closed spec fn view(&self) -> Seq<T> {
        self.data@
    }
}

impl<T> AppendBuffer<T> {
    /// The logical capacity: how many elements fit before a blocking growth.
    pub closed spec fn spec_capacity(&self) -> nat {
        self.cap as nat
    }

    /// The length never exceeds the capacity.
    pub open spec fn wf(&self) -> bool {
        self@.len() <= self.spec_capacity()
    }

    /// An empty buffer with room for `capacity` elements.
    pub fn new(capacity: usize) -> (b: AppendBuffer<T>)
        ensures
            b@ == Seq::<T>::empty(),
            b.spec_capacity() == capacity,
            b.wf(),
    {
        AppendBuffer { data: Vec::with_capacity(capacity), cap: capacity }
    }

    /// The number of completed elements.
    pub fn len(&self) -> (n: usize)
        ensures
            n == self@.len(),
    {
        self.data.len()
    }

    /// The current logical capacity.
    pub fn capacity(&self) -> (n: usize)
        ensures
            n == self.spec_capacity(),
    {
        self.cap
    }

    /// Grows the capacity so that `need` elements fit. The single blocking
    /// point for writers; contents are untouched.
    fn grow(&mut self, need: usize)
        requires
            old(self).wf(),
        ensures
            final(self)@ == old(self)@,
            final(self).spec_capacity() == grown_capacity(
                old(self).spec_capacity(),
                need as nat,
            ),
            need <= final(self).spec_capacity(),
            final(self).wf(),
    {
        if need > self.cap {
            let doubled: usize = if self.cap > usize::MAX / 2 {
                usize::MAX
            } else {
                self.cap * 2
            };
            self.cap = if doubled > need {
                doubled
            } else {
                need
            };
        }
    }

    /// Appends one element, growing first if the buffer is full, and returns
    /// the slot it was written to.
    pub fn push(&mut self, value: T) -> (idx: usize)
        requires
            old(self).wf(),
            old(self)@.len() < usize::MAX,
        ensures
            final(self)@ == old(self)@.push(value),
            idx == old(self)@.len(),
            final(self).spec_capacity() == grown_capacity(
                old(self).spec_capacity(),
                old(self)@.len() + 1,
            ),
            final(self).wf(),
    {
        let idx = self.data.len();
        self.grow(idx + 1);
        self.data.push(value);
        idx
    }

    /// Reserves `items.len()` contiguous slots at the current length and
    /// fills them with `items`, growing first if they do not fit. Returns the
    /// index of the first reserved slot. One atomic append step: the length
    /// advances only over the completed block.
    pub fn append(&mut self, items: Vec<T>) -> (start: usize)
        requires
            old(self).wf(),
            old(self)@.len() + items@.len() <= usize::MAX,
        ensures
            final(self)@ == old(self)@ + items@,
            start == old(self)@.len(),
            final(self).spec_capacity() == grown_capacity(
                old(self).spec_capacity(),
                old(self)@.len() + items@.len(),
            ),
            final(self).wf(),
    {
        let start = self.data.len();
        let mut items = items;
        self.grow(start + items.len());
        self.data.append(&mut items);
        start
    }

    /// Resets the logical length to zero. The backing store, and with it the
    /// capacity, is kept.
    pub fn clear(&mut self)
        requires
            old(self).wf(),
        ensures
            final(self)@ == Seq::<T>::empty(),
            final(self).spec_capacity() == old(self).spec_capacity(),
            final(self).wf(),
    {
        self.data.clear();
    }

    /// A consistent view of all completed elements. Later appends are not
    /// visible through a snapshot already taken.
    pub fn snapshot(&self) -> (s: &Vec<T>)
        ensures
            s@ == self@,
    {
        &self.data
    }

    /// The element in slot `i`.
    pub fn get(&self, i: usize) -> (v: &T)
        requires
            i < self@.len(),
        ensures
            *v == self@[i as int],
    {
        &self.data[i]
    }
}

} // verus!

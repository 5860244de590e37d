//! Slot-based handle table: a growable sequence of optional owned objects,
//! indexed by small integer handles. Allocation appends and returns the new
//! highest index; destruction empties the slot; indices are never reused, so
//! a dangling handle is detected rather than silently reinterpreted.
//!
//! Exclusive access to an entry is obtained by temporarily removing it
//! (`take`) and reinserting it (`put`); this also lets a caller hold two
//! distinct entries at once without aliasing.

use vstd::prelude::*;

verus! {

/// A registry mapping integer handles to optional owned objects.
pub struct HandleTable<T> {
    slots: Vec<Option<T>>,
}

impl<T> View for HandleTable<T> {
    type V = Seq<Option<T>>;

    closed spec fn view(&self) -> Seq<Option<T>> {
        self.slots@
    }
}

impl<T> HandleTable<T> {
    /// A handle is valid iff its slot index is in range and occupied.
    pub open spec fn valid(&self, h: u32) -> bool {
        h < self@.len() && self@[h as int] is Some
    }

    /// The object a valid handle resolves to.
    pub open spec fn at(&self, h: u32) -> T
        recommends
            self.valid(h),
    {
        self@[h as int]->Some_0
    }

    pub fn new() -> (t: Self)
        ensures
            t@ == Seq::<Option<T>>::empty(),
    {
        HandleTable { slots: Vec::new() }
    }

    pub fn len(&self) -> (n: usize)
        ensures
            n == self@.len(),
    {
        self.slots.len()
    }

    /// Appends the value and returns the new highest index as its handle.
    pub fn allocate(&mut self, value: T) -> (h: u32)
        requires
            old(self)@.len() < u32::MAX as usize,
        ensures
            final(self)@ == old(self)@.push(Some(value)),
            h as int == old(self)@.len(),
            final(self).valid(h),
            final(self).at(h) == value,
    {
        let h = self.slots.len() as u32;
        self.slots.push(Some(value));
        h
    }

    /// Resolves a handle to a shared borrow of its object, or `None` if the
    /// index is out of range or the slot is empty.
    pub fn get(&self, h: u32) -> (r: Option<&T>)
        ensures
            match r {
                Some(v) => self.valid(h) && *v == self.at(h),
                None => !self.valid(h),
            },
    {
        if (h as usize) < self.slots.len() {
            self.slots[h as usize].as_ref()
        } else {
            None
        }
    }

    /// Removes a valid handle's object from the table, leaving the slot
    /// empty; an invalid handle leaves the table unchanged.
    pub fn take(&mut self, h: u32) -> (r: Option<T>)
        ensures
            old(self).valid(h) ==> {
                &&& r == Some(old(self).at(h))
                &&& final(self)@ == old(self)@.update(h as int, None::<T>)
            },
            !old(self).valid(h) ==> r is None && final(self)@ == old(self)@,
    {
        if (h as usize) < self.slots.len() {
            let r = self.slots[h as usize].take();
            proof {
                if !old(self).valid(h) {
                    assert(final(self)@ =~= old(self)@);
                }
            }
            r
        } else {
            None
        }
    }

    /// Restores an object into an in-range slot (typically after `take`).
    pub fn put(&mut self, h: u32, value: T)
        requires
            h < old(self)@.len(),
        ensures
            final(self)@ == old(self)@.update(h as int, Some(value)),
    {
        self.slots[h as usize] = Some(value);
    }

    /// Empties a valid handle's slot, dropping the object; returns whether
    /// the handle was valid. The index is not reclaimed.
    pub fn free(&mut self, h: u32) -> (r: bool)
        ensures
            r == old(self).valid(h),
            r ==> final(self)@ == old(self)@.update(h as int, None::<T>),
            !r ==> final(self)@ == old(self)@,
    {
        match self.take(h) {
            Some(_) => true,
            None => false,
        }
    }
}

} // verus!

//! A value paired with a flag that records whether the value was touched
//! since the flag was last taken.

use vstd::prelude::*;

verus! {

/// A cell that remembers mutation. Every mutable access sets the flag;
/// [`Latch::reset`] reads and clears it in one step.
#[derive(Clone)]
pub struct Latch<T> {
    value: T,
    latch: bool,
}

impl<T> std::ops::Deref for Latch<T> {
    type Target = T;

    /// Shared access to the value; the flag is untouched.
    fn deref(&self) -> (r: &T)
        ensures
            *r == self.value(),
    {
        &self.value
    }
}

impl<T> Latch<T> {
    /// The wrapped value.
    pub closed spec fn value(&self) -> T {
        self.value
    }

    /// Whether the value was touched since the flag was last taken.
    pub closed spec fn is_set(&self) -> bool {
        self.latch
    }

    /// Wraps `value` with the flag cleared.
    pub fn new_reset(value: T) -> (l: Self)
        ensures
            l.value() == value,
            !l.is_set(),
    {
        Latch { value, latch: false }
    }

    /// Wraps `value` with the flag set.
    pub fn new_set(value: T) -> (l: Self)
        ensures
            l.value() == value,
            l.is_set(),
    {
        Latch { value, latch: true }
    }

    /// Takes the flag: returns whether it was set, and leaves it cleared.
    /// The value is untouched.
    pub fn reset(&mut self) -> (was_set: bool)
        ensures
            was_set == old(self).is_set(),
            !final(self).is_set(),
            final(self).value() == old(self).value(),
        no_unwind
    {
        if self.latch {
            self.latch = false;
            return true;
        }
        false
    }

    /// Shared access to the value; the flag is untouched.
    pub fn get(&self) -> (r: &T)
        ensures
            *r == self.value(),
    {
        &self.value
    }

    /// Mutable access to the value. The flag is set whether or not the
    /// caller then writes through the reference.
    pub fn get_mut(&mut self) -> (r: &mut T)
        ensures
            *r == old(self).value(),
            final(self).value() == *final(r),
            final(self).is_set(),
        no_unwind
    {
        self.latch = true;
        &mut self.value
    }

    /// Replaces the value and sets the flag.
    pub fn set(&mut self, value: T)
        ensures
            final(self).value() == value,
            final(self).is_set(),
        no_unwind
    {
        self.latch = true;
        self.value = value;
    }

    /// Reads the flag without clearing it.
    pub fn is_dirty(&self) -> (dirty: bool)
        ensures
            dirty == self.is_set(),
    {
        self.latch
    }
}

} // verus!

//! A small cell holding mutable device state.
//!
//! Device backends keep their register state behind this cell; the wrapper's
//! access protocol guarantees that reads and writes reach the cell one at a
//! time.

use vstd::prelude::*;

verus! {

/// A cell holding a device's mutable state.
pub struct DeviceCell<T> {
    value: T,
}

impl<T> DeviceCell<T> {
    /// The contained value.
    pub closed spec fn spec_value(self) -> T {
        self.value
    }

    /// Creates a new cell containing the given value.
    pub fn new(value: T) -> (r: Self)
        ensures
            r.spec_value() == value,
    {
        Self { value }
    }

    /// Gets a reference to the inner value.
    pub fn get(&self) -> (r: &T)
        ensures
            *r == self.spec_value(),
    {
        &self.value
    }

    /// Gets a mutable reference to the inner value.
    pub fn get_mut(&mut self) -> (r: &mut T)
        ensures
            *r == old(self).spec_value(),
            final(self).spec_value() == *final(r),
    {
        &mut self.value
    }

    /// Replaces the contained value and returns the old value.
    pub fn replace(&mut self, val: T) -> (r: T)
        ensures
            r == old(self).spec_value(),
            final(self).spec_value() == val,
    {
        let mut taken = val;
        core::mem::swap(&mut taken, &mut self.value);
        taken
    }

    /// Consumes the cell and returns the inner value.
    pub fn into_inner(self) -> (r: T)
        ensures
            r == self.spec_value(),
    {
        self.value
    }
}

} // verus!

use vstd::prelude::*;

verus! {

/// A single-slot container. The whole value can be read, replaced or taken
/// out, but no reference into the slot is ever handed out, so no two views
/// of the contents can overlap.
pub struct Cell<T> {
    value: T,
}

impl<T> View for Cell<T> {
    type V = T;

    closed spec fn view(&self) -> T {
        self.value
    }
}

impl<T> Cell<T> {
    /// Wraps `value`; the cell then holds exactly that value.
    pub fn new(value: T) -> (c: Cell<T>)
        ensures
            c@ == value,
    {
        Cell { value }
    }

    /// Swaps the stored value for `value` and returns the previous one.
    pub fn replace(&mut self, value: T) -> (prev: T)
        ensures
            prev == old(self)@,
            final(self)@ == value,
    {
        let mut v = value;
        core::mem::swap(&mut self.value, &mut v);
        v
    }

    /// Overwrites the stored value, discarding the previous one.
    pub fn set(&mut self, value: T)
        ensures
            final(self)@ == value,
    {
        self.replace(value);
    }

    /// Consumes the cell and yields ownership of the contained value.
    pub fn into_inner(self) -> (v: T)
        ensures
            v == self@,
    {
        self.value
    }
}

impl<T: Copy> Cell<T> {
    /// Reads the current value without removing it; available only for
    /// bitwise-copyable contents.
    pub fn get(&self) -> (v: T)
        ensures
            v == self@,
    {
        self.value
    }
}

} // verus!

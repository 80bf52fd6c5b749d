//! A cell for state that a uniprocessor kernel keeps for its whole run.

use vstd::prelude::*;

verus! {

/// A cell that hands out exclusive access to the value it holds.
///
/// On a uniprocessor, with no preemption inside the kernel, at most one piece
/// of kernel code uses the value at any time; here that exclusivity is what
/// the `&mut` of `exclusive_access` expresses.
pub struct UpSafeCell<T> {
    inner: T,
}

impl<T> UpSafeCell<T> {
    /// The value the cell holds.
    pub closed spec fn value(&self) -> T {
        self.inner
    }

    /// A cell holding `value`.
    pub fn new(value: T) -> (cell: Self)
        ensures
            cell.value() == value,
    {
        UpSafeCell { inner: value }
    }

    /// Exclusive access to the held value: it reads as the value held, and
    /// what is written through it is what the cell holds afterwards.
    pub fn exclusive_access(&mut self) -> (value: &mut T)
        ensures
            *value == old(self).value(),
            final(self).value() == *final(value),
    {
        &mut self.inner
    }
}

} // verus!

//! A store-once holder that hands a peripheral handle from initialization code
//! to interrupt context.
//!
//! The cell is created empty, filled exactly once during initialization, and
//! thereafter only lends the contained value out, never moves it back out.
//! Every operation demands the global guard of [`crate::guard`], the model of
//! the interrupt-masking critical section under which the hardware cell is
//! touched.

use vstd::prelude::*;
use crate::guard::InterruptGuard;

verus! {

/// A holder for at most one peripheral handle of type `T`.
///
/// States: empty, or occupied by one value. The transition to occupied happens
/// at most once ([`Self::store`] demands an empty cell); afterwards the value
/// is only ever updated in place under the guard ([`Self::with_mut`]).
pub struct SharedPeripheralCell<T> {
    contents: Option<T>,
}

impl<T> SharedPeripheralCell<T> {
    /// Whether the cell holds a value.
    pub closed spec fn is_occupied(&self) -> bool {
        self.contents is Some
    }

    /// Whether the cell is empty.
    pub open spec fn is_empty(&self) -> bool {
        !self.is_occupied()
    }

    /// The held value; meaningful only while the cell is occupied.
    pub closed spec fn value(&self) -> T
        recommends
            self.is_occupied(),
    {
        self.contents->0
    }

    /// A fresh cell, empty.
    pub fn new() -> (cell: Self)
        ensures
            cell.is_empty(),
    {
        SharedPeripheralCell { contents: None }
    }

    /// Place a value into an empty cell, under the guard. Storing twice is a
    /// programming error, ruled out here by the precondition.
    pub fn store(&mut self, guard: &InterruptGuard, value: T)
        requires
            guard.is_held(),
            old(self).is_empty(),
        ensures
            final(self).is_occupied(),
            final(self).value() == value,
    {
        self.contents = Some(value);
    }

    /// Update the held value in place, under the guard.
    ///
    /// On an occupied cell, `f` rewrites the value; the cell stays occupied
    /// and the new value is one `f` allows. On an empty cell nothing is
    /// invoked and nothing changes; the result reports whether `f` ran.
    pub fn with_mut<F: FnOnce(T) -> T>(&mut self, guard: &InterruptGuard, f: F) -> (invoked: bool)
        requires
            guard.is_held(),
            old(self).is_occupied() ==> call_requires(f, (old(self).value(),)),
        ensures
            invoked == old(self).is_occupied(),
            old(self).is_empty() ==> *final(self) == *old(self),
            old(self).is_occupied() ==> final(self).is_occupied() && call_ensures(
                f,
                (old(self).value(),),
                final(self).value(),
            ),
    {
        match self.contents.take() {
            None => false,
            Some(v) => {
                let w = f(v);
                self.contents = Some(w);
                true
            },
        }
    }

    /// Whether the cell holds a value, as a run-time query.
    pub fn occupied(&self) -> (r: bool)
        ensures
            r == self.is_occupied(),
    {
        self.contents.is_some()
    }
}

impl<T: Copy> SharedPeripheralCell<T> {
    /// Read a copy of the held value, under the guard.
    pub fn get(&self, guard: &InterruptGuard) -> (r: Option<T>)
        requires
            guard.is_held(),
        ensures
            r == if self.is_occupied() {
                Some(self.value())
            } else {
                None::<T>
            },
    {
        match &self.contents {
            Some(v) => Some(*v),
            None => None,
        }
    }
}

} // verus!

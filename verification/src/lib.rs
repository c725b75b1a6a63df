//! An owning single-value container with explicit control of its raw storage.
//!
//! `MyBox<T>` owns exactly one value of `T` and hands out shared and
//! exclusive access to it. The storage decisions that back such a box when it
//! is placed on the C heap -- whether to allocate at all, what size and
//! alignment to request, when an allocator reply is fatal, and that the one
//! allocated block is released exactly once -- are made by the `plan` and
//! `lifecycle` modules, so that an embedder performing the raw calls only has
//! to follow the verdicts computed here.

use vstd::prelude::*;

pub mod lifecycle;
pub mod plan;

verus! {

/// An owning container for exactly one value of `T`.
///
/// Between construction and destruction exactly one live value sits behind
/// the box (it is stored inline, so ownership and exclusive access follow
/// from ownership of the box itself), and the box moves or shares across
/// threads exactly when `T` does.
pub struct MyBox<T> {
    value: T,
}

impl<T> View for MyBox<T> {
    type V = T;

    closed spec fn view(&self) -> T {
        self.value
    }
}

impl<T> MyBox<T> {
    /// Takes ownership of `value`; the new box holds exactly `value`,
    /// so a construct/read round trip gives the value back unchanged.
    pub fn new(value: T) -> (b: Self)
        ensures
            b@ == value,
    {
        MyBox { value }
    }

    /// Read access: borrows exactly the contained value.
    pub fn deref(&self) -> (r: &T)
        ensures
            *r == self@,
    {
        &self.value
    }

    /// Write access: after the caller writes `v` through the returned
    /// borrow, the box holds exactly `v` (mutation-then-read).
    pub fn deref_mut(&mut self) -> (r: &mut T)
        ensures
            *r == old(self)@,
            final(self)@ == *final(r),
    {
        &mut self.value
    }
}

} // verus!

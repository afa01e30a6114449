//! A handle that always owns its object, for entry points that never hand out
//! a null handle.

use vstd::prelude::*;

verus! {

/// A handle that owns an object of type `T`.
pub struct Handle<T> {
    pointer: Box<T>,
}

impl<T> View for Handle<T> {
    type V = T;

    closed spec fn view(&self) -> T {
        *self.pointer
    }
}

impl<T> Handle<T> {
    pub fn new(value: T) -> (r: Self)
        ensures
            r@ == value,
    {
        Handle { pointer: Box::new(value) }
    }

    /// Gives back the box that holds the object.
    pub fn unwrap(self) -> (r: Box<T>)
        ensures
            *r == self@,
    {
        self.pointer
    }

    /// The object of the handle.
    pub fn borrow(&self) -> (r: &T)
        ensures
            *r == self@,
    {
        &*self.pointer
    }
}

} // verus!

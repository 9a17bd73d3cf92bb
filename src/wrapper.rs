//! A plain generic wrapper, the kind of value that the references of a scope borrow.
use vstd::prelude::*;

verus! {

/// A value of any type, held in one field.
pub struct Foo<T> {
    pub data: T,
}

impl<T> Foo<T> {
    /// Wraps `data`.
    pub fn new(data: T) -> (r: Self)
        ensures
            r.data == data,
    {
        Foo { data }
    }
}

} // verus!

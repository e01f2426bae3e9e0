//! A copyable, possibly empty reference to a value.

use vstd::prelude::*;

verus! {

/// Holds a reference to an object of type `T`, or nothing.
#[derive(Clone, Copy)]
pub struct ReferenceHolder<'a, T> {
    reference: Option<&'a T>,
}

impl<'a, T> View for ReferenceHolder<'a, T> {
    type V = Option<T>;

    /// The referenced value, if any.
    closed spec fn view(&self) -> Option<T> {
        match self.reference {
            Some(r) => Some(*r),
            None => None,
        }
    }
}

impl<'a, T> ReferenceHolder<'a, T> {
    /// Creates an empty holder.
    pub fn empty() -> (h: Self)
        ensures
            h@.is_none(),
    {
        ReferenceHolder { reference: None }
    }

    /// Returns `true` if the holder references nothing.
    pub fn is_empty(&self) -> (b: bool)
        ensures
            b == self@.is_none(),
    {
        self.reference.is_none()
    }

    /// Creates a holder referencing `h`.
    pub fn from_ref(h: &'a T) -> (r: Self)
        ensures
            r@ == Some(*h),
    {
        ReferenceHolder { reference: Some(h) }
    }

    /// Returns the referenced value; the holder may not be empty.
    pub fn as_ref(&self) -> (r: &'a T)
        requires
            self@.is_some(),
        ensures
            *r == self@.unwrap(),
    {
        self.reference.unwrap()
    }
}

} // verus!

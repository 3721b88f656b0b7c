use vstd::prelude::*;

verus! {

/// A smart pointer that either owns a boxed value or mutably borrows one.
pub enum OBox<'b, T> {
    /// Contains the owned value
    Owned(Box<T>),
    /// Contains the borrowed value
    Borrowed(&'b mut T),
}

impl<'b, T> OBox<'b, T> {
    /// The value currently reachable through this pointer.
    pub open spec fn spec_inner(&self) -> T {
        match *self {
            OBox::Owned(t) => *t,
            OBox::Borrowed(b) => *b,
        }
    }

    /// Extracts the owned data.
    ///
    /// Returns `self` in `Err` if it's not owned.
    pub fn into_box(self) -> (r: Result<Box<T>, Self>)
        ensures
            self matches OBox::Owned(t) ==> r == Ok::<Box<T>, Self>(t),
            self matches OBox::Borrowed(_) ==> r == Err::<Box<T>, Self>(self),
    {
        match self {
            OBox::Owned(owned) => Ok(owned),
            _ => Err(self),
        }
    }

    /// Extracts the borrowed data.
    ///
    /// Returns `self` in `Err` if it's not borrowed.
    pub fn into_borrowed(self) -> (r: Result<&'b mut T, Self>)
        ensures
            self matches OBox::Borrowed(b) ==> r matches Ok(rb) && *rb == *b
                && *final(rb) == *final(b),
            self matches OBox::Owned(_) ==> r == Err::<&'b mut T, Self>(self),
    {
        match self {
            OBox::Borrowed(borrowed) => Ok(borrowed),
            _ => Err(self),
        }
    }

    /// A shared reference to the value, whether owned or borrowed.
    pub fn inner_ref(&self) -> (r: &T)
        ensures
            *r == self.spec_inner(),
    {
        match self {
            OBox::Owned(owned) => &**owned,
            OBox::Borrowed(borrowed) => *borrowed,
        }
    }

    /// A mutable reference to the value, whether owned or borrowed.
    /// Writes through the result land in the owned value or in the
    /// borrowed-from place, respectively.
    pub fn inner_mut(&mut self) -> (r: &mut T)
        ensures
            *r == old(self).spec_inner(),
            final(self).spec_inner() == *final(r),
            (*final(self)) is Owned <==> (*old(self)) is Owned,
    {
        match self {
            OBox::Owned(owned) => &mut **owned,
            OBox::Borrowed(borrowed) => *borrowed,
        }
    }
}

} // verus!

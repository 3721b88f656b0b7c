use vstd::prelude::*;

verus! {

/// A smart pointer that either owns or mutably borrows.
pub enum Ob<'b, T> {
    /// Contains the owned value
    Owned(T),
    /// Contains the borrowed value
    Borrowed(&'b mut T),
}

impl<'b, T> Ob<'b, T> {
    /// The value currently reachable through this pointer.
    pub open spec fn spec_inner(&self) -> T {
        match *self {
            Ob::Owned(t) => t,
            Ob::Borrowed(b) => *b,
        }
    }

    /// Extracts the owned data.
    ///
    /// Returns `self` in `Err` if it's not owned.
    pub fn into_owned(self) -> (r: Result<T, Self>)
        ensures
            self matches Ob::Owned(t) ==> r == Ok::<T, Self>(t),
            self matches Ob::Borrowed(_) ==> r == Err::<T, Self>(self),
    {
        match self {
            Ob::Owned(owned) => Ok(owned),
            _ => Err(self),
        }
    }

    /// Extracts the borrowed data.
    ///
    /// Returns `self` in `Err` if it's not borrowed.
    pub fn into_borrowed(self) -> (r: Result<&'b mut T, Self>)
        ensures
            self matches Ob::Borrowed(b) ==> r matches Ok(rb) && *rb == *b
                && *final(rb) == *final(b),
            self matches Ob::Owned(_) ==> r == Err::<&'b mut T, Self>(self),
    {
        match self {
            Ob::Borrowed(borrowed) => Ok(borrowed),
            _ => Err(self),
        }
    }

    /// A shared reference to the value, whether owned or borrowed.
    pub fn inner_ref(&self) -> (r: &T)
        ensures
            *r == self.spec_inner(),
    {
        match self {
            Ob::Owned(owned) => owned,
            Ob::Borrowed(borrowed) => *borrowed,
        }
    }

    /// A mutable reference to the value, whether owned or borrowed.
    /// Writes through the result land in the owned value or in the
    /// borrowed-from place, respectively.
    pub fn inner_mut(&mut self) -> (r: &mut T)
        ensures
            *r == old(self).spec_inner(),
            final(self).spec_inner() == *final(r),
            (*final(self)) is Owned <==> (*old(self)) is Owned,
    {
        match self {
            Ob::Owned(owned) => owned,
            Ob::Borrowed(borrowed) => *borrowed,
        }
    }
}

} // verus!

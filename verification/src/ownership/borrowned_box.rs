use vstd::prelude::*;
use vstd::std_specs::cmp::{PartialEqSpec, PartialEqSpecImpl, PartialOrdSpec, PartialOrdSpecImpl};
use core::cmp::Ordering;

verus! {

/// A smart pointer that either owns a boxed value or mutably borrows one.
#[derive(Debug)]
pub enum BorrownedBox<'b, T> {
    /// Contains the owned value
    Owned(Box<T>),
    /// Contains the borrowed value
    Borrowed(&'b mut T),
}

impl<'b, T> BorrownedBox<'b, T> {
    /// The value currently reachable through this pointer.
    pub open spec fn spec_inner(&self) -> T {
        match *self {
            BorrownedBox::Owned(t) => *t,
            BorrownedBox::Borrowed(b) => *b,
        }
    }

    /// Extracts the owned data.
    ///
    /// Returns `self` in `Err` if it's not owned.
    pub fn try_into_box(self) -> (r: Result<Box<T>, Self>)
        ensures
            self matches BorrownedBox::Owned(t) ==> r == Ok::<Box<T>, Self>(t),
            self matches BorrownedBox::Borrowed(_) ==> r == Err::<Box<T>, Self>(self),
    {
        match self {
            BorrownedBox::Owned(owned) => Ok(owned),
            _ => Err(self),
        }
    }

    /// Extracts the borrowed data.
    ///
    /// Returns `self` in `Err` if it's not borrowed.
    pub fn try_into_borrowed(self) -> (r: Result<&'b mut T, Self>)
        ensures
            self matches BorrownedBox::Borrowed(b) ==> r matches Ok(rb) && *rb == *b
                && *final(rb) == *final(b),
            self matches BorrownedBox::Owned(_) ==> r == Err::<&'b mut T, Self>(self),
    {
        match self {
            BorrownedBox::Borrowed(borrowed) => Ok(borrowed),
            _ => Err(self),
        }
    }

    /// A shared reference to the value, whether owned or borrowed.
    pub fn inner_ref(&self) -> (r: &T)
        ensures
            *r == self.spec_inner(),
    {
        match self {
            BorrownedBox::Owned(owned) => &**owned,
            BorrownedBox::Borrowed(borrowed) => *borrowed,
        }
    }

    /// A mutable reference to the value, whether owned or borrowed.
    /// Writes through the result land in the owned value or in the
    /// borrowed-from place, respectively.
    pub fn inner_mut(&mut self) -> (r: &mut T)
        ensures
            *r == old(self).spec_inner(),
            final(self).spec_inner() == *final(r),
            (*final(self)) is Owned <==> (*old(self)) is Owned,
    {
        match self {
            BorrownedBox::Owned(owned) => &mut **owned,
            BorrownedBox::Borrowed(borrowed) => *borrowed,
        }
    }
}

impl<'b, T: Clone> Clone for BorrownedBox<'b, T> {
    /// The clone always owns its value: a clone of a borrowed pointer
    /// clones what it borrows, without touching the borrowed-from place.
    fn clone(&self) -> (r: Self)
        ensures
            r is Owned,
            vstd::pervasive::cloned::<T>(self.spec_inner(), r.spec_inner()),
    {
        match self {
            BorrownedBox::Owned(owned) => BorrownedBox::Owned(owned.clone()),
            BorrownedBox::Borrowed(borrowed) => BorrownedBox::Owned(
                Box::new((*borrowed).clone()),
            ),
        }
    }
}

impl<'b, T: PartialEq> PartialEqSpecImpl for BorrownedBox<'b, T> {
    open spec fn obeys_eq_spec() -> bool {
        T::obeys_eq_spec()
    }

    open spec fn eq_spec(&self, other: &Self) -> bool {
        self.spec_inner().eq_spec(&other.spec_inner())
    }
}

impl<'b, T: PartialEq> PartialEq for BorrownedBox<'b, T> {
    /// Two pointers compare by the values they reach, regardless of which
    /// of them owns and which borrows.
    fn eq(&self, other: &Self) -> (r: bool) {
        let b_self = self.inner_ref();
        let b_other = other.inner_ref();

        b_self.eq(b_other)
    }
}

impl<'b, T: Eq> Eq for BorrownedBox<'b, T> {}

impl<'b, T: PartialOrd> PartialOrdSpecImpl for BorrownedBox<'b, T> {
    open spec fn obeys_partial_cmp_spec() -> bool {
        T::obeys_partial_cmp_spec()
    }

    open spec fn partial_cmp_spec(&self, other: &Self) -> Option<Ordering> {
        self.spec_inner().partial_cmp_spec(&other.spec_inner())
    }
}

impl<'b, T: PartialOrd> PartialOrd for BorrownedBox<'b, T> {
    /// Two pointers order by the values they reach, regardless of which
    /// of them owns and which borrows.
    fn partial_cmp(&self, other: &Self) -> (r: Option<Ordering>) {
        let b_self = self.inner_ref();
        let b_other = other.inner_ref();

        b_self.partial_cmp(b_other)
    }
}

impl<'b, T: Default> Default for BorrownedBox<'b, T> {
    /// The default pointer owns a box holding the default value of `T`.
    fn default() -> (r: Self)
        ensures
            r is Owned,
            call_ensures(T::default, (), r.spec_inner()),
    {
        BorrownedBox::Owned(Box::<T>::default())
    }
}

} // verus!

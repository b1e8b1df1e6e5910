//! Type equality as a trait bound.
//!
//! The bound `X: Is<Type = Y>` holds exactly when `X` and `Y` are the same
//! type: the only implementation of `Is` is the blanket one, which sets
//! `Type` to the implementing type itself. Generic code can use such a bound
//! to treat a parameter as a concrete type, and the methods of `Is` move a
//! value, a shared reference or a mutable reference between the two names
//! of that type.
use vstd::prelude::*;

verus! {

/// A type together with a second name for it, `Type`, which is the type
/// itself.
pub trait Is {
    type Type;

    /// The value `self` seen under the name `Type`.
    spec fn spec_into(self) -> Self::Type;

    /// The value `x` seen under the implementing type's own name.
    spec fn spec_from(x: Self::Type) -> Self
        where Self: Sized
    ;

    /// Converting to `Type` and back gives the value that was converted.
    proof fn lemma_from_into(x: Self)
        where Self: Sized
        ensures
            Self::spec_from(x.spec_into()) == x,
    ;

    /// Converting from `Type` and back gives the value that was converted.
    proof fn lemma_into_from(y: Self::Type)
        where Self: Sized
        ensures
            Self::spec_from(y).spec_into() == y,
    ;

    /// Moves a value to the name `Type`.
    fn into_val(self) -> (r: Self::Type)
        ensures
            r == self.spec_into(),
    ;

    /// Borrows a value under the name `Type`.
    fn into_ref(&self) -> (r: &Self::Type)
        ensures
            *r == (*self).spec_into(),
    ;

    /// Borrows a value mutably under the name `Type`: what is written through
    /// the result is what the value holds once the borrow ends.
    fn into_mut_ref(&mut self) -> (r: &mut Self::Type)
        where Self: Sized
        ensures
            *r == (*old(self)).spec_into(),
            *final(self) == Self::spec_from(*final(r)),
    ;

    /// Moves a value of `Type` to the implementing type's own name.
    fn from_val(x: Self::Type) -> (r: Self)
        where Self: Sized
        ensures
            r == Self::spec_from(x),
    ;

    /// Borrows a value of `Type` under the implementing type's own name.
    fn from_ref(x: &Self::Type) -> (r: &Self)
        where Self: Sized
        ensures
            *r == Self::spec_from(*x),
    ;

    /// Borrows a value of `Type` mutably under the implementing type's own
    /// name: what is written through the result is what `x` holds once the
    /// borrow ends.
    fn from_mut_ref(x: &mut Self::Type) -> (r: &mut Self)
        where Self: Sized
        ensures
            *r == Self::spec_from(*old(x)),
            *final(x) == (*final(r)).spec_into(),
    ;
}

impl<T> Is for T {
    type Type = T;

    open spec fn spec_into(self) -> T {
        self
    }

    open spec fn spec_from(x: T) -> T {
        x
    }

    proof fn lemma_from_into(x: T) {
    }

    proof fn lemma_into_from(y: T) {
    }

    fn into_val(self) -> (r: T)
        ensures
            r == self,
    {
        self
    }

    fn into_ref(&self) -> (r: &T)
        ensures
            *r == *self,
    {
        self
    }

    fn into_mut_ref(&mut self) -> (r: &mut T)
        ensures
            *r == *old(self),
            *final(self) == *final(r),
    {
        self
    }

    fn from_val(x: T) -> (r: T)
        ensures
            r == x,
    {
        x
    }

    fn from_ref(x: &T) -> (r: &T)
        ensures
            *r == *x,
    {
        x
    }

    fn from_mut_ref(x: &mut T) -> (r: &mut T)
        ensures
            *r == *old(x),
            *final(x) == *final(r),
    {
        x
    }
}

/// For every type `T`, `<T as Is>::Type` is `T` itself, and both conversions
/// leave a value unchanged.
pub proof fn lemma_is_identity<T>(x: T)
    ensures
        x.spec_into() == x,
        T::spec_from(x) == x,
{
}

} // verus!

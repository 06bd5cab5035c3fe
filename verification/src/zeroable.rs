//! Types whose all-zero bit pattern is a value, and the constructors that rest
//! on it.

use crate::minibox::MiniBox;
use crate::miniptr::MiniPtr;
use vstd::prelude::*;

verus! {

/// A type that is safe to be zeroed: the bit pattern of all zero bytes is a
/// value of the type, and `spec_zero` says which.
///
/// An implementation hands that value out by `zero`. Nothing here looks at
/// bytes, so an implementation that names another value is wrong without
/// being unsafe: `MiniBox::zeroed` then holds that other value.
pub trait Zeroable: Sized {
    /// The value that all zero bytes stand for.
    spec fn spec_zero() -> Self;

    /// Make the value that all zero bytes stand for.
    fn zero() -> (z: Self)
        ensures
            z == Self::spec_zero(),
    ;
}

/// The value of `T` that all zero bytes stand for.
pub fn zeroed<T: Zeroable>() -> (z: T)
    ensures
        z == T::spec_zero(),
{
    T::zero()
}

impl<T: Zeroable> MiniBox<T> {
    /// Initializes a new `MiniBox` with the zero value of `T`, in storage that
    /// was reserved zeroed.
    pub fn zeroed() -> (bx: Self)
        ensures
            bx == MiniBox::containing(T::spec_zero()),
            bx.ptr() == MiniPtr::holding(T::spec_zero()),
    {
        MiniBox::<T>::new_zeroed().write(T::zero())
    }
}

} // verus!

//! The capabilities of the contained value, offered by the container.

use crate::minibox::MiniBox;
use crate::miniptr::MiniPtr;
use crate::size_class::SizeClass;
use vstd::prelude::*;
use vstd::std_specs::convert::FromSpecImpl;

verus! {

/// `Hash::hash` of std: feeds `value` into `state`. What a hasher makes of it is
/// the hasher's own business, so nothing is claimed.
#[verifier::external_body]
fn feed<T: core::hash::Hash, H: core::hash::Hasher>(value: &T, state: &mut H) {
    value.hash(state)
}

impl<T: Default> Default for MiniBox<T> {
    /// The container of the default value of `T`.
    fn default() -> (bx: Self)
        ensures
            T::default.ensures((), bx@),
            bx == MiniBox::containing(bx@),
    {
        Self::with(T::default)
    }
}

impl<T: Clone> Clone for MiniBox<T> {
    /// A container of its own with a clone of the value.
    fn clone(&self) -> (bx: Self)
        ensures
            cloned(self@, bx@),
            bx == MiniBox::containing(bx@),
    {
        let staged = MiniBox::<T>::new_uninit();
        let value: &T = &**self;
        staged.write(value.clone())
    }
}

impl<T> From<T> for MiniBox<T> {
    fn from(value: T) -> (bx: Self) {
        Self::new(value)
    }
}

impl<T> FromSpecImpl<T> for MiniBox<T> {
    open spec fn obeys_from_spec() -> bool {
        true
    }

    open spec fn from_spec(value: T) -> Self {
        MiniBox::containing(value)
    }
}

impl<'a, T: Clone> From<&'a T> for MiniBox<T> {
    /// A container with a clone of `value`, made once the storage is reserved.
    fn from(value: &'a T) -> (bx: Self)
        ensures
            cloned(*value, bx@),
            bx == MiniBox::containing(bx@),
    {
        let staged = MiniBox::<T>::new_uninit();
        staged.write(value.clone())
    }
}

impl<'a, T: Clone> FromSpecImpl<&'a T> for MiniBox<T> {
    /// What `clone` returns is the business of `T`, so no value is promised
    /// here; see the contract of `from` itself.
    open spec fn obeys_from_spec() -> bool {
        false
    }

    open spec fn from_spec(value: &'a T) -> Self {
        MiniBox::containing(*value)
    }
}

impl<T> From<Box<T>> for MiniBox<T> {
    /// The container of the value that `value` holds. The heap cell is kept
    /// where the strategy of `T` is `Boxed`, and given up where it is not: the
    /// result is the same as if the value had never been on the heap.
    fn from(value: Box<T>) -> (bx: Self)
        ensures
            bx.ptr() == MiniPtr::holding(*value),
    {
        let bx = match Self::size_class() {
            SizeClass::Zero => Self::new_zst(*value),
            SizeClass::Inline => Self::new(*value),
            SizeClass::Boxed => Self::from_ptr(MiniPtr::Boxed(value)),
        };
        proof {
            MiniBox::lemma_containing(*value);
            MiniBox::lemma_slot_determines(bx, MiniBox::containing(*value));
        }
        bx
    }
}

impl<T> FromSpecImpl<Box<T>> for MiniBox<T> {
    open spec fn obeys_from_spec() -> bool {
        true
    }

    open spec fn from_spec(value: Box<T>) -> Self {
        MiniBox::containing(*value)
    }
}

impl<T> AsRef<T> for MiniBox<T> {
    fn as_ref(&self) -> (value: &T)
        ensures
            *value == self@,
    {
        &**self
    }
}

impl<T> AsMut<T> for MiniBox<T> {
    fn as_mut(&mut self) -> (value: &mut T)
        ensures
            *value == old(self)@,
            final(self)@ == *final(value),
    {
        &mut **self
    }
}

impl<T> std::borrow::Borrow<T> for MiniBox<T> {
    fn borrow(&self) -> &T
        returns
            &self@,
    {
        &**self
    }
}

impl<T> std::borrow::BorrowMut<T> for MiniBox<T> {
    /// The contained value, for writing: what is handed out is the value as
    /// it was, what is written becomes the value, and the slot stays the valid
    /// one for it.
    fn borrow_mut(&mut self) -> (value: &mut T)
        ensures
            *value === old(self)@,
            final(self)@ == *final(value),
            final(self).ptr() == MiniPtr::holding(*final(value)),
    {
        &mut **self
    }
}

impl<T: core::hash::Hash> core::hash::Hash for MiniBox<T> {
    /// Feeds the contained value, and nothing else, into `state`.
    fn hash<H: core::hash::Hasher>(&self, state: &mut H) {
        feed(&**self, state)
    }
}

} // verus!

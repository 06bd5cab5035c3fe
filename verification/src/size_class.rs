//! The storage strategy of a type, decided by its size and alignment alone.

use vstd::layout::{align_of, size_of};
use vstd::prelude::*;

verus! {

/// The storage strategy of a `MiniBox` or `MiniPtr` for a given value type.
#[derive(Debug, Clone, Copy, PartialEq, Eq, Structural, PartialOrd, Ord, Hash)]
pub enum SizeClass {
    /// The value type has size zero: nothing is stored and nothing is allocated.
    Zero,
    /// The value fits in a machine word and is stored in the slot itself.
    Inline,
    /// The value is stored in a heap cell that the slot owns.
    Boxed,
}

impl SizeClass {
    /// The strategy for a value of `size` bytes aligned to `align`, on a machine
    /// whose word has `word_size` bytes aligned to `word_align`.
    pub open spec fn of_layout(size: nat, align: nat, word_size: nat, word_align: nat) -> SizeClass {
        if size == 0 {
            SizeClass::Zero
        } else if size <= word_size && align <= word_align {
            SizeClass::Inline
        } else {
            SizeClass::Boxed
        }
    }

    /// The strategy for the type `T` on this machine. It depends on the type
    /// alone, never on a value.
    pub open spec fn of<T>() -> SizeClass {
        Self::of_layout(size_of::<T>(), align_of::<T>(), size_of::<usize>(), align_of::<usize>())
    }

    /// Get the storage strategy for the given type.
    pub fn new<T>() -> (class: SizeClass)
        ensures
            class == Self::of::<T>(),
    {
        let size: usize = core::mem::size_of::<T>();
        let align: usize = core::mem::align_of::<T>();
        let word_size: usize = core::mem::size_of::<usize>();
        let word_align: usize = core::mem::align_of::<usize>();
        if size == 0 {
            SizeClass::Zero
        } else if size <= word_size && align <= word_align {
            SizeClass::Inline
        } else {
            SizeClass::Boxed
        }
    }

    /// A type of size zero is `Zero`, whatever its alignment.
    pub proof fn lemma_zero_sized<T>()
        requires
            size_of::<T>() == 0,
        ensures
            Self::of::<T>() == SizeClass::Zero,
    {
    }

    /// A type that has bytes, no more of them than a word and no stricter an
    /// alignment, is `Inline`.
    pub proof fn lemma_word_sized<T>()
        requires
            0 < size_of::<T>() <= size_of::<usize>(),
            align_of::<T>() <= align_of::<usize>(),
        ensures
            Self::of::<T>() == SizeClass::Inline,
    {
    }

    /// Every other type is `Boxed`: one that has bytes and is larger than a
    /// word or more aligned than one.
    pub proof fn lemma_oversized<T>()
        requires
            size_of::<T>() > 0,
            size_of::<T>() > size_of::<usize>() || align_of::<T>() > align_of::<usize>(),
        ensures
            Self::of::<T>() == SizeClass::Boxed,
    {
    }

    /// Storage that may or may not hold a `T` yet has the strategy of `T`.
    pub proof fn lemma_staging_keeps_class<T>()
        ensures
            Self::of::<core::mem::MaybeUninit<T>>() == Self::of::<T>(),
    {
        broadcast use vstd::layout::layout_of_maybe_uninit;

    }
}

} // verus!

//! The raw slot: one value under one of the three storage strategies.

use crate::size_class::SizeClass;
use vstd::layout::{align_of, size_of};
use vstd::prelude::*;

verus! {

/// The address that stands for every zero-sized value of type `T`: the type's
/// alignment. It is never null, it is aligned for `T`, and nothing is ever read
/// or written there.
pub fn dangling<T>() -> (addr: usize)
    ensures
        addr as nat == align_of::<T>(),
        addr != 0,
        addr as nat % align_of::<T>() == 0,
{
    broadcast use vstd::layout::align_nonzero;

    core::mem::align_of::<T>()
}

/// A raw slot, the storage of a `MiniBox` without its guarantee.
///
/// A slot records the strategy it was filled under. Nothing stops a caller from
/// filling a slot under a strategy that is not the one of `T`; such a slot is not
/// [`valid`](MiniPtr::valid) and cannot become a `MiniBox`.
pub enum MiniPtr<T> {
    /// `T` has no bytes: the slot stores nothing and owns no memory.
    Zero(T),
    /// The bytes of the value are the bytes of the slot.
    Inline(T),
    /// The slot is the one owner of a heap cell that holds the value.
    Boxed(Box<T>),
}

impl<T> MiniPtr<T> {
    /// The strategy that the slot was filled under.
    pub open spec fn class(&self) -> SizeClass {
        match self {
            MiniPtr::Zero(_) => SizeClass::Zero,
            MiniPtr::Inline(_) => SizeClass::Inline,
            MiniPtr::Boxed(_) => SizeClass::Boxed,
        }
    }

    /// The value that the slot stands for.
    pub open spec fn value(&self) -> T {
        match self {
            MiniPtr::Zero(v) => *v,
            MiniPtr::Inline(v) => *v,
            MiniPtr::Boxed(b) => **b,
        }
    }

    /// Whether the slot owns a heap cell.
    pub open spec fn on_heap(&self) -> bool {
        self is Boxed
    }

    /// The slot was filled under the strategy of `T`.
    pub open spec fn valid(&self) -> bool {
        self.class() == SizeClass::of::<T>()
    }

    /// The one valid slot that stands for `value`.
    pub open spec fn holding(value: T) -> MiniPtr<T> {
        match SizeClass::of::<T>() {
            SizeClass::Zero => MiniPtr::Zero(value),
            SizeClass::Inline => MiniPtr::Inline(value),
            SizeClass::Boxed => MiniPtr::Boxed(Box::new(value)),
        }
    }

    /// The strategy that the slot was filled under.
    pub fn size_class(&self) -> (class: SizeClass)
        ensures
            class == self.class(),
    {
        match self {
            MiniPtr::Zero(_) => SizeClass::Zero,
            MiniPtr::Inline(_) => SizeClass::Inline,
            MiniPtr::Boxed(_) => SizeClass::Boxed,
        }
    }

    /// Get a reference to the underlying value.
    pub fn as_ref(&self) -> (value: &T)
        ensures
            *value == self.value(),
    {
        match self {
            MiniPtr::Zero(v) => v,
            MiniPtr::Inline(v) => v,
            MiniPtr::Boxed(b) => &**b,
        }
    }

    /// Get a mutable reference to the underlying value. Writing through it
    /// changes the value and leaves the strategy of the slot as it was.
    pub fn as_mut(&mut self) -> (value: &mut T)
        ensures
            *value == old(self).value(),
            final(self).value() == *final(value),
            final(self).class() == old(self).class(),
        no_unwind
    {
        match self {
            MiniPtr::Zero(v) => v,
            MiniPtr::Inline(v) => v,
            MiniPtr::Boxed(b) => &mut **b,
        }
    }

    /// Filling a slot and reading it gives the value back, and the slot made
    /// for a value is valid.
    pub proof fn lemma_holding_round_trip(value: T)
        ensures
            Self::holding(value).value() == value,
            Self::holding(value).valid(),
    {
    }

    /// A valid slot is canonical: its value alone determines it.
    pub proof fn lemma_valid_is_canonical(slot: Self)
        requires
            slot.valid(),
        ensures
            slot == Self::holding(slot.value()),
    {
    }

    /// A valid slot owns a heap cell if and only if the strategy of `T` is
    /// `Boxed`.
    pub proof fn lemma_heap_only_when_boxed(slot: Self)
        requires
            slot.valid(),
        ensures
            slot.on_heap() <==> SizeClass::of::<T>() is Boxed,
    {
    }

    /// A value of a zero-sized type is held without storage and without a heap
    /// cell.
    pub proof fn lemma_zero_sized_holds_nothing(value: T)
        requires
            size_of::<T>() == 0,
        ensures
            Self::holding(value) == MiniPtr::Zero(value),
            !Self::holding(value).on_heap(),
    {
    }

    /// A value that fits a word is held in the slot itself, without a heap
    /// cell.
    pub proof fn lemma_word_sized_holds_inline(value: T)
        requires
            0 < size_of::<T>() <= size_of::<usize>(),
            align_of::<T>() <= align_of::<usize>(),
        ensures
            Self::holding(value) == MiniPtr::Inline(value),
            !Self::holding(value).on_heap(),
    {
    }

    /// Any other value is held in a heap cell.
    pub proof fn lemma_oversized_holds_boxed(value: T)
        requires
            size_of::<T>() > 0,
            size_of::<T>() > size_of::<usize>() || align_of::<T>() > align_of::<usize>(),
        ensures
            Self::holding(value) == MiniPtr::Boxed(Box::new(value)),
            Self::holding(value).on_heap(),
    {
    }
}

} // verus!

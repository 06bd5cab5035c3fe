//! The owning container and its staging form.

use crate::miniptr::MiniPtr;
use crate::size_class::SizeClass;
use core::mem::MaybeUninit;
use vstd::prelude::*;
use vstd::std_specs::maybe_uninit::MaybeUninitAdditionalSpecFns;

verus! {

/// `MaybeUninit::zeroed` of std: storage for a `T` with every byte zero. Whether
/// that is a value of `T` depends on `T`, so nothing is claimed of the result.
#[verifier::external_body]
fn zero_filled<T>() -> (storage: MaybeUninit<T>) {
    MaybeUninit::zeroed()
}

/// `Box::write` of std: moves `value` into the heap cell that `cell` owns and
/// hands the same cell back as a `Box<T>`. The contract claims that the cell then
/// holds `value`.
#[verifier::external_body]
fn box_write<T>(cell: Box<MaybeUninit<T>>, value: T) -> (filled: Box<T>)
    ensures
        *filled == value,
{
    Box::write(cell, value)
}

/// What reserved storage is filled with before a value is written.
enum Fill {
    /// Nothing: the bytes are left as they are.
    Nothing,
    /// Zero bytes.
    Zeroes,
}

/// A box equivalent that stores the value inline if it is layout compatible with
/// a machine word.
///
/// Its slot is always the one that the strategy of `T` asks for: whoever holds a
/// `MiniBox<T>` holds a valid `MiniPtr<T>`. A `MiniBox<MaybeUninit<T>>` is the
/// staging form: storage for a `T` that is reserved and may hold no value yet.
pub struct MiniBox<T> {
    ptr: MiniPtr<T>,
}

impl<T> View for MiniBox<T> {
    type V = T;

    /// The contained value.
    open spec fn view(&self) -> T {
        self.ptr().value()
    }
}

impl<T> MiniBox<T> {
    #[verifier::type_invariant]
    spec fn slot_is_valid(self) -> bool {
        self.ptr.valid()
    }

    /// The slot of the container.
    pub closed spec fn ptr(&self) -> MiniPtr<T> {
        self.ptr
    }

    /// The container that holds `value`.
    pub closed spec fn containing(value: T) -> Self {
        MiniBox { ptr: MiniPtr::holding(value) }
    }

    /// The container that holds `value` has the one valid slot for `value`, and
    /// taking the value out of it gives `value` back.
    pub proof fn lemma_containing(value: T)
        ensures
            Self::containing(value).ptr() == MiniPtr::holding(value),
            Self::containing(value)@ == value,
    {
    }

    /// A container is no more than its slot: putting the slot of `a` together
    /// again gives `a`.
    pub proof fn lemma_slot_determines(a: Self, b: Self)
        requires
            a.ptr() == b.ptr(),
        ensures
            a == b,
    {
    }

    /// The size class for `T`.
    pub fn size_class() -> (class: SizeClass)
        ensures
            class == SizeClass::of::<T>(),
    {
        SizeClass::new::<T>()
    }

    /// Create a new `MiniBox<T>`: reserve storage, then write `value` into it.
    pub fn new(value: T) -> (bx: Self)
        ensures
            bx == Self::containing(value),
            bx.ptr() == MiniPtr::holding(value),
    {
        Self::new_uninit().write(value)
    }

    /// Create a new `MiniBox<T>` from a producer, which runs only once the
    /// storage is reserved.
    pub fn with<F: FnOnce() -> T>(value: F) -> (bx: Self)
        requires
            value.requires(()),
        ensures
            value.ensures((), bx@),
            bx == Self::containing(bx@),
            bx.ptr() == MiniPtr::holding(bx@),
    {
        let staged = Self::new_uninit();
        staged.write(value())
    }

    /// Create a new `MiniBox<T>` for a zero-sized `T`, without reserving
    /// anything.
    pub fn new_zst(value: T) -> (bx: Self)
        requires
            SizeClass::of::<T>() is Zero,
        ensures
            bx == Self::containing(value),
            bx.ptr() == MiniPtr::Zero(value),
    {
        MiniBox { ptr: MiniPtr::Zero(value) }
    }

    /// Reserve storage for a `T` of strategy `Zero` or `Inline`: no storage at
    /// all for the first, a zeroed word for the second.
    pub fn new_zeroed_inline() -> (bx: MiniBox<MaybeUninit<T>>)
        requires
            !(SizeClass::of::<T>() is Boxed),
        ensures
            bx.ptr() == MiniPtr::holding(bx@),
            bx.ptr().class() == SizeClass::of::<T>(),
            SizeClass::of::<T>() is Zero ==> bx@.as_option() is None,
    {
        broadcast use vstd::layout::layout_of_maybe_uninit;

        match SizeClass::new::<T>() {
            SizeClass::Zero => MiniBox { ptr: MiniPtr::Zero(MaybeUninit::uninit()) },
            _ => MiniBox { ptr: MiniPtr::Inline(zero_filled()) },
        }
    }

    /// Reserve storage for a `T` and leave it without a value: a heap cell
    /// under `Boxed`, nothing that needs an allocation under the other two.
    pub fn new_uninit() -> (bx: MiniBox<MaybeUninit<T>>)
        ensures
            bx.ptr() == MiniPtr::holding(bx@),
            bx.ptr().class() == SizeClass::of::<T>(),
            !(SizeClass::of::<T>() is Inline) ==> bx@.as_option() is None,
    {
        Self::with_alloc(Fill::Nothing)
    }

    /// Reserve storage for a `T` and fill it with zero bytes.
    pub fn new_zeroed() -> (bx: MiniBox<MaybeUninit<T>>)
        ensures
            bx.ptr() == MiniPtr::holding(bx@),
            bx.ptr().class() == SizeClass::of::<T>(),
            SizeClass::of::<T>() is Zero ==> bx@.as_option() is None,
    {
        Self::with_alloc(Fill::Zeroes)
    }

    /// Reserve storage as the strategy of `T` asks: a heap cell under `Boxed`,
    /// filled as `fill` says, and no allocation under the other two.
    fn with_alloc(fill: Fill) -> (bx: MiniBox<MaybeUninit<T>>)
        ensures
            bx.ptr() == MiniPtr::holding(bx@),
            bx.ptr().class() == SizeClass::of::<T>(),
            SizeClass::of::<T>() is Zero ==> bx@.as_option() is None,
            SizeClass::of::<T>() is Boxed && fill is Nothing ==> bx@.as_option() is None,
    {
        broadcast use vstd::layout::layout_of_maybe_uninit;

        match SizeClass::new::<T>() {
            SizeClass::Zero | SizeClass::Inline => Self::new_zeroed_inline(),
            SizeClass::Boxed => {
                let storage = match fill {
                    Fill::Nothing => MaybeUninit::uninit(),
                    Fill::Zeroes => zero_filled(),
                };
                MiniBox { ptr: MiniPtr::Boxed(Box::new(storage)) }
            },
        }
    }

    /// Take ownership of a slot back. The slot has to be valid, as every slot
    /// is that `MiniBox::into_ptr` gave out.
    pub fn from_ptr(ptr: MiniPtr<T>) -> (bx: Self)
        requires
            ptr.valid(),
        ensures
            bx.ptr() == ptr,
    {
        MiniBox { ptr }
    }

    /// Convert the box into its slot without dropping the value. The slot is
    /// valid: it can be handed to `MiniBox::from_ptr`.
    pub fn into_ptr(bx: Self) -> (ptr: MiniPtr<T>)
        ensures
            ptr == bx.ptr(),
            ptr.valid(),
            ptr == MiniPtr::holding(bx@),
    {
        proof {
            use_type_invariant(&bx);
        }
        bx.ptr
    }

    /// Consume the `MiniBox`, returning the underlying value. Under `Boxed` the
    /// heap cell is given up; the value itself is not dropped.
    pub fn into_inner(bx: Self) -> (value: T)
        ensures
            value == bx@,
    {
        match Self::into_ptr(bx) {
            MiniPtr::Zero(v) => v,
            MiniPtr::Inline(v) => v,
            MiniPtr::Boxed(b) => *b,
        }
    }
}

impl<T> MiniBox<MaybeUninit<T>> {
    /// Consume and initialize the staging container. This overwrites what the
    /// storage held without dropping it, and keeps the storage: under `Boxed`
    /// the heap cell of the result is the one that was reserved.
    pub fn write(self, value: T) -> (bx: MiniBox<T>)
        ensures
            bx == MiniBox::containing(value),
            bx.ptr() == MiniPtr::holding(value),
    {
        broadcast use vstd::layout::layout_of_maybe_uninit;

        proof {
            use_type_invariant(&self);
        }
        match self.ptr {
            MiniPtr::Zero(_) => MiniBox { ptr: MiniPtr::Zero(value) },
            MiniPtr::Inline(_) => MiniBox { ptr: MiniPtr::Inline(value) },
            MiniPtr::Boxed(cell) => MiniBox { ptr: MiniPtr::Boxed(box_write(cell, value)) },
        }
    }
}

impl<T> core::ops::Deref for MiniBox<T> {
    type Target = T;

    /// The contained value, wherever the strategy of `T` keeps it.
    fn deref(&self) -> (value: &T)
        ensures
            *value == self@,
    {
        self.ptr.as_ref()
    }
}

impl<T> core::ops::DerefMut for MiniBox<T> {
    /// The contained value, for writing. Whatever is written, the slot stays
    /// the valid one for the new value.
    fn deref_mut(&mut self) -> (value: &mut T)
        ensures
            *value == old(self)@,
            final(self)@ == *final(value),
            final(self).ptr() == MiniPtr::holding(*final(value)),
    {
        proof {
            use_type_invariant(&*self);
        }
        self.ptr.as_mut()
    }
}

} // verus!

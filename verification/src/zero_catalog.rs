//! The types that are known to be safe to be zeroed.

use crate::zeroable::Zeroable;
use std::rc::Rc;
use std::sync::Arc;
use vstd::array::spec_array_fill_for_copy_type;
use vstd::prelude::*;

verus! {

// integers
impl Zeroable for u8 {
    open spec fn spec_zero() -> u8 {
        0
    }

    fn zero() -> (z: u8) {
        0
    }
}

impl Zeroable for u16 {
    open spec fn spec_zero() -> u16 {
        0
    }

    fn zero() -> (z: u16) {
        0
    }
}

impl Zeroable for u32 {
    open spec fn spec_zero() -> u32 {
        0
    }

    fn zero() -> (z: u32) {
        0
    }
}

impl Zeroable for u64 {
    open spec fn spec_zero() -> u64 {
        0
    }

    fn zero() -> (z: u64) {
        0
    }
}

impl Zeroable for u128 {
    open spec fn spec_zero() -> u128 {
        0
    }

    fn zero() -> (z: u128) {
        0
    }
}

impl Zeroable for usize {
    open spec fn spec_zero() -> usize {
        0
    }

    fn zero() -> (z: usize) {
        0
    }
}

impl Zeroable for i8 {
    open spec fn spec_zero() -> i8 {
        0
    }

    fn zero() -> (z: i8) {
        0
    }
}

impl Zeroable for i16 {
    open spec fn spec_zero() -> i16 {
        0
    }

    fn zero() -> (z: i16) {
        0
    }
}

impl Zeroable for i32 {
    open spec fn spec_zero() -> i32 {
        0
    }

    fn zero() -> (z: i32) {
        0
    }
}

impl Zeroable for i64 {
    open spec fn spec_zero() -> i64 {
        0
    }

    fn zero() -> (z: i64) {
        0
    }
}

impl Zeroable for i128 {
    open spec fn spec_zero() -> i128 {
        0
    }

    fn zero() -> (z: i128) {
        0
    }
}

impl Zeroable for isize {
    open spec fn spec_zero() -> isize {
        0
    }

    fn zero() -> (z: isize) {
        0
    }
}

// handles whose empty form is the null word

impl<'a, T: ?Sized> Zeroable for Option<&'a T> {
    open spec fn spec_zero() -> Option<&'a T> {
        None
    }

    fn zero() -> (z: Option<&'a T>) {
        None
    }
}

impl<'a, T: ?Sized> Zeroable for Option<&'a mut T> {
    open spec fn spec_zero() -> Option<&'a mut T> {
        None
    }

    fn zero() -> (z: Option<&'a mut T>) {
        None
    }
}

impl<T: ?Sized> Zeroable for Option<Box<T>> {
    open spec fn spec_zero() -> Option<Box<T>> {
        None
    }

    fn zero() -> (z: Option<Box<T>>) {
        None
    }
}

impl<T: ?Sized> Zeroable for Option<Rc<T>> {
    open spec fn spec_zero() -> Option<Rc<T>> {
        None
    }

    fn zero() -> (z: Option<Rc<T>>) {
        None
    }
}

impl<T: ?Sized> Zeroable for Option<Arc<T>> {
    open spec fn spec_zero() -> Option<Arc<T>> {
        None
    }

    fn zero() -> (z: Option<Arc<T>>) {
        None
    }
}

impl<T> Zeroable for Option<Vec<T>> {
    open spec fn spec_zero() -> Option<Vec<T>> {
        None
    }

    fn zero() -> (z: Option<Vec<T>>) {
        None
    }
}

// tuples, up to sixteen fields

impl Zeroable for () {
    open spec fn spec_zero() -> () {
        ()
    }

    fn zero() -> (z: ()) {
        ()
    }
}

impl<A: Zeroable> Zeroable for (A,) {
    open spec fn spec_zero() -> (A,) {
        (A::spec_zero(),)
    }

    fn zero() -> (z: (A,)) {
        (A::zero(),)
    }
}

impl<A: Zeroable, B: Zeroable> Zeroable for (A, B) {
    open spec fn spec_zero() -> (A, B) {
        (A::spec_zero(), B::spec_zero())
    }

    fn zero() -> (z: (A, B)) {
        (A::zero(), B::zero())
    }
}

impl<A: Zeroable, B: Zeroable, C: Zeroable> Zeroable for (A, B, C) {
    open spec fn spec_zero() -> (A, B, C) {
        (A::spec_zero(), B::spec_zero(), C::spec_zero())
    }

    fn zero() -> (z: (A, B, C)) {
        (A::zero(), B::zero(), C::zero())
    }
}

impl<A: Zeroable, B: Zeroable, C: Zeroable, D: Zeroable> Zeroable for (A, B, C, D) {
    open spec fn spec_zero() -> (A, B, C, D) {
        (A::spec_zero(), B::spec_zero(), C::spec_zero(), D::spec_zero())
    }

    fn zero() -> (z: (A, B, C, D)) {
        (A::zero(), B::zero(), C::zero(), D::zero())
    }
}

impl<A: Zeroable, B: Zeroable, C: Zeroable, D: Zeroable, E: Zeroable> Zeroable for (A, B, C, D, E) {
    open spec fn spec_zero() -> (A, B, C, D, E) {
        (A::spec_zero(), B::spec_zero(), C::spec_zero(), D::spec_zero(), E::spec_zero())
    }

    fn zero() -> (z: (A, B, C, D, E)) {
        (A::zero(), B::zero(), C::zero(), D::zero(), E::zero())
    }
}

impl<
    A: Zeroable,
    B: Zeroable,
    C: Zeroable,
    D: Zeroable,
    E: Zeroable,
    F: Zeroable,
> Zeroable for (A, B, C, D, E, F) {
    open spec fn spec_zero() -> (A, B, C, D, E, F) {
        (
            A::spec_zero(),
            B::spec_zero(),
            C::spec_zero(),
            D::spec_zero(),
            E::spec_zero(),
            F::spec_zero(),
        )
    }

    fn zero() -> (z: (A, B, C, D, E, F)) {
        (A::zero(), B::zero(), C::zero(), D::zero(), E::zero(), F::zero())
    }
}

impl<
    A: Zeroable,
    B: Zeroable,
    C: Zeroable,
    D: Zeroable,
    E: Zeroable,
    F: Zeroable,
    G: Zeroable,
> Zeroable for (A, B, C, D, E, F, G) {
    open spec fn spec_zero() -> (A, B, C, D, E, F, G) {
        (
            A::spec_zero(),
            B::spec_zero(),
            C::spec_zero(),
            D::spec_zero(),
            E::spec_zero(),
            F::spec_zero(),
            G::spec_zero(),
        )
    }

    fn zero() -> (z: (A, B, C, D, E, F, G)) {
        (A::zero(), B::zero(), C::zero(), D::zero(), E::zero(), F::zero(), G::zero())
    }
}

impl<
    A: Zeroable,
    B: Zeroable,
    C: Zeroable,
    D: Zeroable,
    E: Zeroable,
    F: Zeroable,
    G: Zeroable,
    H: Zeroable,
> Zeroable for (A, B, C, D, E, F, G, H) {
    open spec fn spec_zero() -> (A, B, C, D, E, F, G, H) {
        (
            A::spec_zero(),
            B::spec_zero(),
            C::spec_zero(),
            D::spec_zero(),
            E::spec_zero(),
            F::spec_zero(),
            G::spec_zero(),
            H::spec_zero(),
        )
    }

    fn zero() -> (z: (A, B, C, D, E, F, G, H)) {
        (A::zero(), B::zero(), C::zero(), D::zero(), E::zero(), F::zero(), G::zero(), H::zero())
    }
}

impl<
    A: Zeroable,
    B: Zeroable,
    C: Zeroable,
    D: Zeroable,
    E: Zeroable,
    F: Zeroable,
    G: Zeroable,
    H: Zeroable,
    I: Zeroable,
> Zeroable for (A, B, C, D, E, F, G, H, I) {
    open spec fn spec_zero() -> (A, B, C, D, E, F, G, H, I) {
        (
            A::spec_zero(),
            B::spec_zero(),
            C::spec_zero(),
            D::spec_zero(),
            E::spec_zero(),
            F::spec_zero(),
            G::spec_zero(),
            H::spec_zero(),
            I::spec_zero(),
        )
    }

    fn zero() -> (z: (A, B, C, D, E, F, G, H, I)) {
        (
            A::zero(),
            B::zero(),
            C::zero(),
            D::zero(),
            E::zero(),
            F::zero(),
            G::zero(),
            H::zero(),
            I::zero(),
        )
    }
}

impl<
    A: Zeroable,
    B: Zeroable,
    C: Zeroable,
    D: Zeroable,
    E: Zeroable,
    F: Zeroable,
    G: Zeroable,
    H: Zeroable,
    I: Zeroable,
    J: Zeroable,
> Zeroable for (A, B, C, D, E, F, G, H, I, J) {
    open spec fn spec_zero() -> (A, B, C, D, E, F, G, H, I, J) {
        (
            A::spec_zero(),
            B::spec_zero(),
            C::spec_zero(),
            D::spec_zero(),
            E::spec_zero(),
            F::spec_zero(),
            G::spec_zero(),
            H::spec_zero(),
            I::spec_zero(),
            J::spec_zero(),
        )
    }

    fn zero() -> (z: (A, B, C, D, E, F, G, H, I, J)) {
        (
            A::zero(),
            B::zero(),
            C::zero(),
            D::zero(),
            E::zero(),
            F::zero(),
            G::zero(),
            H::zero(),
            I::zero(),
            J::zero(),
        )
    }
}

impl<
    A: Zeroable,
    B: Zeroable,
    C: Zeroable,
    D: Zeroable,
    E: Zeroable,
    F: Zeroable,
    G: Zeroable,
    H: Zeroable,
    I: Zeroable,
    J: Zeroable,
    K: Zeroable,
> Zeroable for (A, B, C, D, E, F, G, H, I, J, K) {
    open spec fn spec_zero() -> (A, B, C, D, E, F, G, H, I, J, K) {
        (
            A::spec_zero(),
            B::spec_zero(),
            C::spec_zero(),
            D::spec_zero(),
            E::spec_zero(),
            F::spec_zero(),
            G::spec_zero(),
            H::spec_zero(),
            I::spec_zero(),
            J::spec_zero(),
            K::spec_zero(),
        )
    }

    fn zero() -> (z: (A, B, C, D, E, F, G, H, I, J, K)) {
        (
            A::zero(),
            B::zero(),
            C::zero(),
            D::zero(),
            E::zero(),
            F::zero(),
            G::zero(),
            H::zero(),
            I::zero(),
            J::zero(),
            K::zero(),
        )
    }
}

impl<
    A: Zeroable,
    B: Zeroable,
    C: Zeroable,
    D: Zeroable,
    E: Zeroable,
    F: Zeroable,
    G: Zeroable,
    H: Zeroable,
    I: Zeroable,
    J: Zeroable,
    K: Zeroable,
    L: Zeroable,
> Zeroable for (A, B, C, D, E, F, G, H, I, J, K, L) {
    open spec fn spec_zero() -> (A, B, C, D, E, F, G, H, I, J, K, L) {
        (
            A::spec_zero(),
            B::spec_zero(),
            C::spec_zero(),
            D::spec_zero(),
            E::spec_zero(),
            F::spec_zero(),
            G::spec_zero(),
            H::spec_zero(),
            I::spec_zero(),
            J::spec_zero(),
            K::spec_zero(),
            L::spec_zero(),
        )
    }

    fn zero() -> (z: (A, B, C, D, E, F, G, H, I, J, K, L)) {
        (
            A::zero(),
            B::zero(),
            C::zero(),
            D::zero(),
            E::zero(),
            F::zero(),
            G::zero(),
            H::zero(),
            I::zero(),
            J::zero(),
            K::zero(),
            L::zero(),
        )
    }
}

impl<
    A: Zeroable,
    B: Zeroable,
    C: Zeroable,
    D: Zeroable,
    E: Zeroable,
    F: Zeroable,
    G: Zeroable,
    H: Zeroable,
    I: Zeroable,
    J: Zeroable,
    K: Zeroable,
    L: Zeroable,
    M: Zeroable,
> Zeroable for (A, B, C, D, E, F, G, H, I, J, K, L, M) {
    open spec fn spec_zero() -> (A, B, C, D, E, F, G, H, I, J, K, L, M) {
        (
            A::spec_zero(),
            B::spec_zero(),
            C::spec_zero(),
            D::spec_zero(),
            E::spec_zero(),
            F::spec_zero(),
            G::spec_zero(),
            H::spec_zero(),
            I::spec_zero(),
            J::spec_zero(),
            K::spec_zero(),
            L::spec_zero(),
            M::spec_zero(),
        )
    }

    fn zero() -> (z: (A, B, C, D, E, F, G, H, I, J, K, L, M)) {
        (
            A::zero(),
            B::zero(),
            C::zero(),
            D::zero(),
            E::zero(),
            F::zero(),
            G::zero(),
            H::zero(),
            I::zero(),
            J::zero(),
            K::zero(),
            L::zero(),
            M::zero(),
        )
    }
}

impl<
    A: Zeroable,
    B: Zeroable,
    C: Zeroable,
    D: Zeroable,
    E: Zeroable,
    F: Zeroable,
    G: Zeroable,
    H: Zeroable,
    I: Zeroable,
    J: Zeroable,
    K: Zeroable,
    L: Zeroable,
    M: Zeroable,
    N: Zeroable,
> Zeroable for (A, B, C, D, E, F, G, H, I, J, K, L, M, N) {
    open spec fn spec_zero() -> (A, B, C, D, E, F, G, H, I, J, K, L, M, N) {
        (
            A::spec_zero(),
            B::spec_zero(),
            C::spec_zero(),
            D::spec_zero(),
            E::spec_zero(),
            F::spec_zero(),
            G::spec_zero(),
            H::spec_zero(),
            I::spec_zero(),
            J::spec_zero(),
            K::spec_zero(),
            L::spec_zero(),
            M::spec_zero(),
            N::spec_zero(),
        )
    }

    fn zero() -> (z: (A, B, C, D, E, F, G, H, I, J, K, L, M, N)) {
        (
            A::zero(),
            B::zero(),
            C::zero(),
            D::zero(),
            E::zero(),
            F::zero(),
            G::zero(),
            H::zero(),
            I::zero(),
            J::zero(),
            K::zero(),
            L::zero(),
            M::zero(),
            N::zero(),
        )
    }
}

impl<
    A: Zeroable,
    B: Zeroable,
    C: Zeroable,
    D: Zeroable,
    E: Zeroable,
    F: Zeroable,
    G: Zeroable,
    H: Zeroable,
    I: Zeroable,
    J: Zeroable,
    K: Zeroable,
    L: Zeroable,
    M: Zeroable,
    N: Zeroable,
    O: Zeroable,
> Zeroable for (A, B, C, D, E, F, G, H, I, J, K, L, M, N, O) {
    open spec fn spec_zero() -> (A, B, C, D, E, F, G, H, I, J, K, L, M, N, O) {
        (
            A::spec_zero(),
            B::spec_zero(),
            C::spec_zero(),
            D::spec_zero(),
            E::spec_zero(),
            F::spec_zero(),
            G::spec_zero(),
            H::spec_zero(),
            I::spec_zero(),
            J::spec_zero(),
            K::spec_zero(),
            L::spec_zero(),
            M::spec_zero(),
            N::spec_zero(),
            O::spec_zero(),
        )
    }

    fn zero() -> (z: (A, B, C, D, E, F, G, H, I, J, K, L, M, N, O)) {
        (
            A::zero(),
            B::zero(),
            C::zero(),
            D::zero(),
            E::zero(),
            F::zero(),
            G::zero(),
            H::zero(),
            I::zero(),
            J::zero(),
            K::zero(),
            L::zero(),
            M::zero(),
            N::zero(),
            O::zero(),
        )
    }
}

impl<
    A: Zeroable,
    B: Zeroable,
    C: Zeroable,
    D: Zeroable,
    E: Zeroable,
    F: Zeroable,
    G: Zeroable,
    H: Zeroable,
    I: Zeroable,
    J: Zeroable,
    K: Zeroable,
    L: Zeroable,
    M: Zeroable,
    N: Zeroable,
    O: Zeroable,
    P: Zeroable,
> Zeroable for (A, B, C, D, E, F, G, H, I, J, K, L, M, N, O, P) {
    open spec fn spec_zero() -> (A, B, C, D, E, F, G, H, I, J, K, L, M, N, O, P) {
        (
            A::spec_zero(),
            B::spec_zero(),
            C::spec_zero(),
            D::spec_zero(),
            E::spec_zero(),
            F::spec_zero(),
            G::spec_zero(),
            H::spec_zero(),
            I::spec_zero(),
            J::spec_zero(),
            K::spec_zero(),
            L::spec_zero(),
            M::spec_zero(),
            N::spec_zero(),
            O::spec_zero(),
            P::spec_zero(),
        )
    }

    fn zero() -> (z: (A, B, C, D, E, F, G, H, I, J, K, L, M, N, O, P)) {
        (
            A::zero(),
            B::zero(),
            C::zero(),
            D::zero(),
            E::zero(),
            F::zero(),
            G::zero(),
            H::zero(),
            I::zero(),
            J::zero(),
            K::zero(),
            L::zero(),
            M::zero(),
            N::zero(),
            O::zero(),
            P::zero(),
        )
    }
}

// arrays
impl<T: Zeroable + Copy, const N: usize> Zeroable for [T; N] {
    /// The array whose every element is the zero of `T`.
    open spec fn spec_zero() -> [T; N] {
        spec_array_fill_for_copy_type::<T, N>(T::spec_zero())
    }

    fn zero() -> (z: [T; N]) {
        [T::zero(); N]
    }
}

} // verus!

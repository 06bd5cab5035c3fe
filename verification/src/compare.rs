//! Equality and order of containers: those of the contained values.

use crate::minibox::MiniBox;
use vstd::prelude::*;
use vstd::std_specs::cmp::{PartialEqSpec, PartialEqSpecImpl, PartialOrdSpec, PartialOrdSpecImpl};

verus! {

impl<T: PartialEq<U>, U> PartialEq<MiniBox<U>> for MiniBox<T> {
    fn eq(&self, other: &MiniBox<U>) -> (equal: bool) {
        let a: &T = &**self;
        let b: &U = &**other;
        a.eq(b)
    }
}

impl<T: PartialEq<U>, U> PartialEqSpecImpl<MiniBox<U>> for MiniBox<T> {
    open spec fn obeys_eq_spec() -> bool {
        T::obeys_eq_spec()
    }

    open spec fn eq_spec(&self, other: &MiniBox<U>) -> bool {
        self@.eq_spec(&other@)
    }
}

impl<T: Eq> Eq for MiniBox<T> {

}

impl<T: PartialOrd<U>, U> PartialOrd<MiniBox<U>> for MiniBox<T> {
    fn partial_cmp(&self, other: &MiniBox<U>) -> (order: Option<core::cmp::Ordering>) {
        let a: &T = &**self;
        let b: &U = &**other;
        a.partial_cmp(b)
    }
}

impl<T: PartialOrd<U>, U> PartialOrdSpecImpl<MiniBox<U>> for MiniBox<T> {
    open spec fn obeys_partial_cmp_spec() -> bool {
        T::obeys_partial_cmp_spec()
    }

    open spec fn partial_cmp_spec(&self, other: &MiniBox<U>) -> Option<core::cmp::Ordering> {
        self@.partial_cmp_spec(&other@)
    }
}

} // verus!

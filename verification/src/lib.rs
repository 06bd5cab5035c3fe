//! A single-owner container that keeps a value in its own slot when the value is
//! no larger and no more aligned than a machine word, and on the heap otherwise.
//! A zero-sized value needs no storage at all.
//!
//! The strategy is a function of the value's type: [`SizeClass::new`] computes it
//! from size and alignment. A [`MiniPtr`] is a slot filled under one strategy; a
//! [`MiniBox`] is a slot that is known to be filled under the strategy of its
//! type, and owns what the slot owns.

pub mod compare;
pub mod forward;
pub mod minibox;
pub mod miniptr;
pub mod size_class;
pub mod zero_catalog;
pub mod zeroable;

pub use minibox::MiniBox;
pub use miniptr::{dangling, MiniPtr};
pub use size_class::SizeClass;
pub use zeroable::{zeroed, Zeroable};

use core::borrow::{Borrow, BorrowMut};
use core::cmp::Ordering;
use core::hash::{Hash, Hasher};
use minibox::{zeroed, MiniBox, MiniPtr, SizeClass, Zeroable};
use std::collections::hash_map::DefaultHasher;
use std::rc::Rc;
use std::sync::Arc;

fn digest<T: Hash>(value: &T) -> u64 {
    let mut state = DefaultHasher::new();
    value.hash(&mut state);
    state.finish()
}

#[test]
fn default_is_the_default_of_the_value() {
    assert_eq!(*MiniBox::<u32>::default(), 0);
    assert_eq!(*MiniBox::<String>::default(), "");
    assert_eq!(*MiniBox::<[u64; 5]>::default(), [0; 5]);
    assert_eq!(*MiniBox::<()>::default(), ());
}

#[test]
fn clone_is_a_container_of_its_own() {
    let first = MiniBox::new(vec![1_u8, 2, 3]);
    let mut second = first.clone();
    second.push(4);
    assert_eq!(*first, [1, 2, 3]);
    assert_eq!(*second, [1, 2, 3, 4]);

    let small = MiniBox::new(9_u8);
    assert_eq!(*small.clone(), 9);
}

#[test]
fn equality_is_that_of_the_values() {
    assert!(MiniBox::new(3_u8) == MiniBox::new(3_u8));
    assert!(MiniBox::new(3_u8) != MiniBox::new(4_u8));
    assert!(MiniBox::new([1_u64; 4]) == MiniBox::new([1_u64; 4]));
    assert!(MiniBox::new(String::from("a")) == MiniBox::new("a"));
    assert!(MiniBox::new(String::from("a")) != MiniBox::new("b"));
}

#[test]
fn order_is_that_of_the_values() {
    assert!(MiniBox::new(3_u8) < MiniBox::new(4_u8));
    assert!(MiniBox::new([2_u64, 0, 0]) > MiniBox::new([1_u64, 9, 9]));
    assert_eq!(
        MiniBox::new(1.5_f64).partial_cmp(&MiniBox::new(1.5_f64)),
        Some(Ordering::Equal)
    );
    assert_eq!(
        MiniBox::new(f64::NAN).partial_cmp(&MiniBox::new(1.0_f64)),
        None
    );
}

#[test]
fn hash_is_that_of_the_value() {
    assert_eq!(digest(&MiniBox::new(0x55_u8)), digest(&0x55_u8));
    assert_eq!(digest(&MiniBox::new([3_u64; 6])), digest(&[3_u64; 6]));
    assert_eq!(digest(&MiniBox::new(())), digest(&()));
    assert_ne!(digest(&MiniBox::new(1_u32)), digest(&MiniBox::new(2_u32)));
}

#[test]
fn from_a_value_a_reference_and_a_box() {
    let bx: MiniBox<u16> = MiniBox::from(600_u16);
    assert_eq!(*bx, 600);

    let text = String::from("borrowed");
    let bx: MiniBox<String> = MiniBox::from(&text);
    assert_eq!(*bx, "borrowed");
    assert_eq!(text, "borrowed");

    let bx: MiniBox<[u8; 64]> = MiniBox::from(Box::new([6_u8; 64]));
    assert_eq!(*bx, [6; 64]);
}

#[test]
fn from_a_box_is_canonical_for_the_class() {
    let bx: MiniBox<()> = MiniBox::from(Box::new(()));
    assert!(matches!(MiniBox::into_ptr(bx), MiniPtr::Zero(())));

    let bx: MiniBox<u32> = MiniBox::from(Box::new(31_u32));
    assert!(matches!(MiniBox::into_ptr(bx), MiniPtr::Inline(31)));

    let cell = Box::new([31_u64; 3]);
    let before = format!("{:p}", &*cell);
    let bx: MiniBox<[u64; 3]> = MiniBox::from(cell);
    let after = format!("{:p}", &*bx);
    assert_eq!(before, after);
    assert_eq!(MiniBox::into_ptr(bx).size_class(), SizeClass::Boxed);
}

#[test]
fn references_to_the_value() {
    let mut bx = MiniBox::new(5_u64);
    let seen: &u64 = bx.as_ref();
    assert_eq!(*seen, 5);
    let seen: &u64 = bx.borrow();
    assert_eq!(*seen, 5);
    let place: &mut u64 = bx.as_mut();
    *place = 6;
    assert_eq!(*bx, 6);
    let place: &mut u64 = bx.borrow_mut();
    *place = 7;
    assert_eq!(*bx, 7);
}

#[test]
fn zeroed_integers() {
    assert_eq!(zeroed::<u8>(), 0);
    assert_eq!(zeroed::<u16>(), 0);
    assert_eq!(zeroed::<u32>(), 0);
    assert_eq!(zeroed::<u64>(), 0);
    assert_eq!(zeroed::<u128>(), 0);
    assert_eq!(zeroed::<usize>(), 0);
    assert_eq!(zeroed::<i8>(), 0);
    assert_eq!(zeroed::<i16>(), 0);
    assert_eq!(zeroed::<i32>(), 0);
    assert_eq!(zeroed::<i64>(), 0);
    assert_eq!(zeroed::<i128>(), 0);
    assert_eq!(zeroed::<isize>(), 0);
    assert_eq!(<u32 as Zeroable>::zero(), 0);
}

#[test]
fn zeroed_handles_are_empty() {
    assert!(zeroed::<Option<&u8>>().is_none());
    assert!(zeroed::<Option<&mut u8>>().is_none());
    assert!(zeroed::<Option<&str>>().is_none());
    assert!(zeroed::<Option<Box<u8>>>().is_none());
    assert!(zeroed::<Option<Rc<u8>>>().is_none());
    assert!(zeroed::<Option<Arc<u8>>>().is_none());
    assert!(zeroed::<Option<Vec<u8>>>().is_none());
}

#[test]
fn zeroed_tuples_and_arrays() {
    assert_eq!(zeroed::<()>(), ());
    assert_eq!(zeroed::<(u8,)>(), (0,));
    assert_eq!(zeroed::<(u8, i64)>(), (0, 0));
    assert_eq!(zeroed::<(u8, (u16, u32), [i8; 3])>(), (0, (0, 0), [0; 3]));
    assert_eq!(
        zeroed::<(u8, u8, u8, u8, u8, u8, u8, u8, u8, u8, u8, u8)>(),
        (0, 0, 0, 0, 0, 0, 0, 0, 0, 0, 0, 0)
    );
    let wide = zeroed::<(u8, u8, u8, u8, u8, u8, u8, u8, u8, u8, u8, u8, u8, u8, u8, u64)>();
    assert_eq!(wide.0, 0);
    assert_eq!(wide.15, 0);
    assert_eq!(zeroed::<[u16; 0]>(), []);
    assert_eq!(zeroed::<[u16; 7]>(), [0; 7]);
    assert_eq!(zeroed::<[[u8; 2]; 2]>(), [[0; 2]; 2]);
}

#[test]
fn zeroed_container_reads_back_zero() {
    let bx = MiniBox::<u32>::zeroed();
    assert_eq!(*bx, 0);
    assert!(matches!(MiniBox::into_ptr(bx), MiniPtr::Inline(0)));

    let bx = MiniBox::<[u64; 16]>::zeroed();
    assert_eq!(*bx, [0; 16]);
    assert_eq!(MiniBox::into_ptr(bx).size_class(), SizeClass::Boxed);

    let bx = MiniBox::<()>::zeroed();
    assert!(matches!(MiniBox::into_ptr(bx), MiniPtr::Zero(())));

    let bx = MiniBox::<Option<Box<u8>>>::zeroed();
    assert!(bx.is_none());
}

fn takes_send<T: Send>(_value: &T) -> bool {
    true
}

fn takes_sync<T: Sync>(_value: &T) -> bool {
    true
}

#[test]
fn thread_safety_is_that_of_the_value() {
    let small = MiniBox::new(1_u8);
    assert!(takes_send(&small));
    assert!(takes_sync(&small));
    let large = MiniBox::new([1_u64; 8]);
    assert!(takes_send(&large));
    assert!(takes_sync(&large));
}

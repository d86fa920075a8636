use std::cell::Cell;
use std::cell::RefCell;

use critsec::{with, CriticalSection, Guarded};

#[test]
fn with_returns_closure_result() {
    assert_eq!(with(|_| 42), 42);
}

#[test]
fn nested_with_returns_inner_result() {
    assert_eq!(with(|_cs1| with(|_cs2| 7)), 7);
}

#[test]
fn sequential_with_calls_are_independent() {
    let a = with(|_| 1);
    let b = with(|_| 2);
    assert_eq!((a, b), (1, 2));
}

#[test]
fn with_passes_result_through_unchanged() {
    let s = with(|_| String::from("kept"));
    assert_eq!(s, "kept");
    let v: Option<u8> = with(|_| None);
    assert_eq!(v, None);
}

#[test]
fn outer_token_still_usable_after_inner_call() {
    let m = Guarded::new(Cell::new(1u32));
    let r = with(|cs: CriticalSection| {
        let inner = with(|cs2| m.borrow(cs2).get());
        m.borrow(cs).set(inner + 10);
        m.borrow(cs).get()
    });
    assert_eq!(r, 11);
}

#[test]
fn guarded_value_keeps_write_across_sections() {
    let m = Guarded::new(Cell::new(0i32));
    with(|cs| m.borrow(cs).set(5));
    assert_eq!(with(|cs| m.borrow(cs).get()), 5);
}

#[test]
fn repeated_borrows_in_one_section_agree() {
    let m = Guarded::new(17u64);
    let (a, b) = with(|cs| (*m.borrow(cs), *m.borrow(cs)));
    assert_eq!(a, 17);
    assert_eq!(a, b);
}

#[test]
fn guarded_refcell_mutation() {
    let m = Guarded::new(RefCell::new(vec![1, 2]));
    with(|cs| m.borrow(cs).borrow_mut().push(3));
    assert_eq!(with(|cs| m.borrow(cs).borrow().clone()), vec![1, 2, 3]);
}

#[test]
fn guarded_get_mut_and_into_inner() {
    let mut m = Guarded::new(3u8);
    *m.get_mut() = 9;
    assert_eq!(*m.get_mut(), 9);
    assert_eq!(m.into_inner(), 9);
}

#[test]
fn guarded_into_inner_returns_initial_value() {
    let m = Guarded::new(String::from("abc"));
    assert_eq!(m.into_inner(), "abc");
}

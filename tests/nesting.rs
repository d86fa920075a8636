use critsec::nesting::{Action, Nesting, RestoreState};
use critsec::raw::RawRestoreState;

#[test]
fn single_acquire_release_protects_once() {
    let mut n = Nesting::new();
    assert!(!n.is_held());
    let (s, a) = n.acquire();
    assert_eq!(a, Action::Protect);
    assert!(n.is_held());
    assert!(!s.is_nested());
    assert_eq!(n.release(s), Action::Unprotect);
    assert!(!n.is_held());
}

#[test]
fn nested_acquire_is_no_op() {
    let mut n = Nesting::new();
    let (outer, a1) = n.acquire();
    let (inner, a2) = n.acquire();
    assert_eq!(a1, Action::Protect);
    assert_eq!(a2, Action::Nothing);
    assert!(inner.is_nested());
    assert_eq!(inner.raw(), RawRestoreState::Bool(true));
    assert_eq!(n.release(inner), Action::Nothing);
    assert!(n.is_held());
    assert_eq!(n.release(outer), Action::Unprotect);
    assert!(!n.is_held());
}

#[test]
fn sequential_sections_each_cycle_fully() {
    let mut n = Nesting::new();
    let mut actions = Vec::new();
    for _ in 0..2 {
        let (s, a) = n.acquire();
        actions.push(a);
        actions.push(n.release(s));
    }
    assert_eq!(
        actions,
        vec![Action::Protect, Action::Unprotect, Action::Protect, Action::Unprotect]
    );
    assert!(!n.is_held());
}

#[test]
fn deep_nesting_restores_initial_state() {
    let mut n = Nesting::new();
    let mut states = Vec::new();
    let mut protects = 0;
    for _ in 0..5 {
        let (s, a) = n.acquire();
        if a == Action::Protect {
            protects += 1;
        }
        states.push(s);
    }
    let mut unprotects = 0;
    while let Some(s) = states.pop() {
        assert!(n.is_held());
        if n.release(s) == Action::Unprotect {
            unprotects += 1;
        }
    }
    assert_eq!((protects, unprotects), (1, 1));
    assert!(!n.is_held());
}

#[test]
fn invalid_restore_state_is_a_dummy() {
    let s = RestoreState::invalid();
    assert_eq!(s.raw(), RawRestoreState::Bool(false));
    assert!(!s.is_nested());
}

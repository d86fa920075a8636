//! The nesting algebra of acquire and release on one thread of control.
//!
//! `Nesting` decides, for each acquire and release, whether the protection
//! mechanism must act. The outermost acquire engages it and its matching
//! release lifts it; every acquire made while it is engaged hands out a restore
//! state that makes the paired release a no-op. The restore states still
//! pending form a ghost stack, and `release` asks for its top, so pairings
//! that do not nest are rejected before the program runs.
use vstd::prelude::*;
use crate::raw::RawRestoreState;

verus! {

/// What the protection mechanism (interrupt mask, hardware lock) must do.
#[derive(Clone, Copy, Debug, PartialEq, Eq, Structural)]
pub enum Action {
    /// Engage the protection: this is the outermost acquire.
    Protect,
    /// Lift the protection: this is the outermost release.
    Unprotect,
    /// Leave the mechanism as it is: a nested acquire or release.
    Nothing,
}

/// What an acquire hands to its matching release. It is neither `Copy` nor
/// `Clone`: the release consumes it, so it cannot be handed over twice.
pub struct RestoreState {
    raw: RawRestoreState,
    /// Depth at which the state was issued; negative for the dummy value.
    level: Ghost<int>,
}

impl RestoreState {
    pub closed spec fn raw_spec(self) -> RawRestoreState {
        self.raw
    }

    pub closed spec fn level(self) -> int {
        self.level@
    }

    /// Issued by an acquire, so it may be handed to a release.
    pub open spec fn is_valid(self) -> bool {
        self.level() >= 0
    }

    /// The section was already held when this state was issued.
    pub open spec fn was_held(self) -> bool {
        self.raw_spec() == RawRestoreState::Bool(true)
    }

    /// A dummy value, for storage that must hold a state before any acquire.
    /// It can never be handed to a release.
    pub fn invalid() -> (r: RestoreState)
        ensures
            !r.is_valid(),
            r.raw_spec() == RawRestoreState::Bool(false),
    {
        RestoreState { raw: RawRestoreState::Bool(false), level: Ghost(-1) }
    }

    /// The raw value carried from acquire to release.
    pub fn raw(&self) -> (r: RawRestoreState)
        ensures
            r == self.raw_spec(),
    {
        self.raw
    }

    /// Whether the release of this state leaves the protection in force.
    pub fn is_nested(&self) -> (r: bool)
        ensures
            r == self.was_held(),
    {
        match self.raw {
            RawRestoreState::Bool(b) => b,
            _ => false,
        }
    }
}

/// The dummy restore state is told apart from every state an acquire issues.
pub proof fn lemma_invalid_is_distinct(dummy: RestoreState, issued: RestoreState)
    requires
        !dummy.is_valid(),
        issued.is_valid(),
    ensures
        dummy != issued,
        dummy.level() != issued.level(),
{
}

/// The abstract state of a `Nesting`: whether the protection is engaged, and,
/// for each acquire not yet released, whether the section was held before it.
pub struct NestingView {
    pub held: bool,
    pub pending: Seq<bool>,
}

/// Whether every acquire still pending found the section held, but the first.
pub open spec fn nesting_wf(v: NestingView) -> bool {
    &&& v.pending.len() > 0 ==> v.held
    &&& forall|i: int| 0 < i < v.pending.len() ==> #[trigger] v.pending[i]
}

pub open spec fn acquire_spec(v: NestingView) -> NestingView {
    NestingView { held: true, pending: v.pending.push(v.held) }
}

pub open spec fn release_spec(v: NestingView) -> NestingView {
    NestingView { held: v.pending.last(), pending: v.pending.drop_last() }
}

/// `s` is the restore state of the innermost acquire still pending in `v`.
pub open spec fn pairs_with(v: NestingView, s: RestoreState) -> bool {
    &&& v.pending.len() > 0
    &&& s.is_valid()
    &&& s.level() == v.pending.len() - 1
    &&& s.was_held() == v.pending.last()
}

/// The critical-section status of one thread of control.
pub struct Nesting {
    held: bool,
    pending: Ghost<Seq<bool>>,
}

impl View for Nesting {
    type V = NestingView;

    closed spec fn view(&self) -> NestingView {
        NestingView { held: self.held, pending: self.pending@ }
    }
}

impl Nesting {
    pub open spec fn wf(&self) -> bool {
        nesting_wf(self@)
    }

    /// A thread of control outside any critical section.
    pub fn new() -> (r: Nesting)
        ensures
            r.wf(),
            !r@.held,
            r@.pending == Seq::<bool>::empty(),
    {
        Nesting { held: false, pending: Ghost(Seq::empty()) }
    }

    pub fn is_held(&self) -> (r: bool)
        ensures
            r == self@.held,
    {
        self.held
    }

    /// Enters the section; the action is what the protection mechanism must do.
    pub fn acquire(&mut self) -> (r: (RestoreState, Action))
        requires
            old(self).wf(),
        ensures
            final(self).wf(),
            final(self)@ == acquire_spec(old(self)@),
            pairs_with(final(self)@, r.0),
            r.0.raw_spec() == RawRestoreState::Bool(old(self)@.held),
            r.1 == (if old(self)@.held { Action::Nothing } else { Action::Protect }),
    {
        let was = self.held;
        let ghost level = self.pending@.len() as int;
        self.pending = Ghost(self.pending@.push(was));
        self.held = true;
        proof {
            assert forall|i: int| 0 < i < self.pending@.len() implies #[trigger] self.pending@[i] by {
                if i < level {
                    assert(old(self).pending@[i]);
                }
            }
        }
        let state = RestoreState { raw: RawRestoreState::Bool(was), level: Ghost(level) };
        let action = if was { Action::Nothing } else { Action::Protect };
        (state, action)
    }

    /// Leaves the section entered by the acquire that issued `state`.
    pub fn release(&mut self, state: RestoreState) -> (a: Action)
        requires
            old(self).wf(),
            pairs_with(old(self)@, state),
        ensures
            final(self).wf(),
            final(self)@ == release_spec(old(self)@),
            final(self)@.held == state.was_held(),
            a == (if state.was_held() { Action::Nothing } else { Action::Unprotect }),
    {
        let nested = state.is_nested();
        self.held = nested;
        self.pending = Ghost(self.pending@.drop_last());
        if nested { Action::Nothing } else { Action::Unprotect }
    }
}

/// One call on a thread of control.
#[derive(Clone, Copy, Debug, PartialEq, Eq, Structural)]
pub enum Step {
    Acquire,
    Release,
}

/// Acquires minus releases in `steps`.
pub open spec fn net(steps: Seq<Step>) -> int
    decreases steps.len(),
{
    if steps.len() == 0 {
        0
    } else {
        net(steps.drop_last()) + if steps.last() == Step::Acquire { 1int } else { -1int }
    }
}

/// No prefix of `steps` releases more than it acquired.
pub open spec fn never_under(steps: Seq<Step>) -> bool {
    forall|i: int| 0 <= i <= steps.len() ==> net(#[trigger] steps.take(i)) >= 0
}

/// Every release in `steps` pairs with an earlier acquire, and every acquire
/// is released: the calls nest like a stack.
pub open spec fn properly_nested(steps: Seq<Step>) -> bool {
    never_under(steps) && net(steps) == 0
}

/// The state after `steps`, each release handed the state of its pairing acquire.
pub open spec fn run(v: NestingView, steps: Seq<Step>) -> NestingView
    decreases steps.len(),
{
    if steps.len() == 0 {
        v
    } else {
        let before = run(v, steps.drop_last());
        if steps.last() == Step::Acquire {
            acquire_spec(before)
        } else {
            release_spec(before)
        }
    }
}

proof fn lemma_run_frames(v: NestingView, steps: Seq<Step>)
    requires
        nesting_wf(v),
        never_under(steps),
    ensures
        run(v, steps).pending.len() == v.pending.len() + net(steps),
        run(v, steps).pending.subrange(0, v.pending.len() as int) == v.pending,
        net(steps) > 0 ==> run(v, steps).pending[v.pending.len() as int] == v.held,
        net(steps) > 0 ==> run(v, steps).held,
        forall|j: int|
            v.pending.len() < j < run(v, steps).pending.len() ==> #[trigger] run(v, steps).pending[j],
        net(steps) == 0 ==> run(v, steps) == v,
    decreases steps.len(),
{
    let n = v.pending.len() as int;
    if steps.len() == 0 {
        assert(v.pending.subrange(0, n) =~= v.pending);
    } else {
        let pre = steps.drop_last();
        assert forall|i: int| 0 <= i <= pre.len() implies net(#[trigger] pre.take(i)) >= 0 by {
            assert(pre.take(i) =~= steps.take(i));
        }
        assert(steps.take(steps.len() as int) =~= steps);
        assert(steps.take(pre.len() as int) =~= pre);
        lemma_run_frames(v, pre);
        let before = run(v, pre);
        let after = run(v, steps);
        if steps.last() == Step::Acquire {
            assert(after.pending.subrange(0, n) =~= before.pending.subrange(0, n));
        } else {
            assert(net(pre) >= 1);
            assert(after.pending.subrange(0, n) =~= before.pending.subrange(0, n));
            if net(steps) == 0 {
                assert(after.pending =~= v.pending);
            } else {
                assert(before.pending[before.pending.len() - 1]);
            }
        }
    }
}

/// A sequence of properly nested calls leaves the thread of control as it
/// found it: the protection is restored once, by the outermost release.
pub proof fn lemma_nested_calls_restore(v: NestingView, steps: Seq<Step>)
    requires
        nesting_wf(v),
        properly_nested(steps),
    ensures
        run(v, steps) == v,
{
    lemma_run_frames(v, steps);
}

/// While an acquire of a nested sequence is still pending, the section stays
/// held: an inner release leaves the outer section in force.
pub proof fn lemma_inner_release_keeps_section(v: NestingView, steps: Seq<Step>)
    requires
        nesting_wf(v),
        never_under(steps),
        net(steps) > 0,
    ensures
        run(v, steps).held,
        nesting_wf(run(v, steps)),
{
    lemma_run_frames(v, steps);
    let r = run(v, steps);
    let n = v.pending.len() as int;
    assert forall|i: int| 0 < i < r.pending.len() implies #[trigger] r.pending[i] by {
        if i < n {
            assert(r.pending.subrange(0, n)[i] == v.pending[i]);
        }
    }
}

} // verus!

//! The scoped entry point and the guarded value, on top of the one
//! acquire/release implementation that the final program registers.
use vstd::prelude::*;
use critical_section::CriticalSection;

verus! {

#[verifier::external_type_specification]
#[verifier::external_body]
pub struct ExCriticalSection<'cs>(critical_section::CriticalSection<'cs>);

#[verifier::external_type_specification]
#[verifier::external_body]
#[verifier::reject_recursive_types(T)]
pub struct ExMutex<T>(critical_section::Mutex<T>);

/// Relies on critical_section::with: it acquires the section, calls `f` once
/// with a token, releases the section even when `f` unwinds, and returns what
/// `f` returned.
#[verifier::external_body]
fn enter<R, F: FnOnce(CriticalSection) -> R>(f: F) -> (r: R)
    requires
        forall|cs: CriticalSection| f.requires((cs,)),
    ensures
        exists|cs: CriticalSection| f.ensures((cs,), r),
{
    critical_section::with(f)
}

/// Runs `f` inside the critical section and returns its result unchanged.
///
/// Calls may nest: an inner call leaves the protection engaged by the outer
/// one in force, and only the outermost release lifts it.
pub fn with<R>(f: impl FnOnce(CriticalSection) -> R) -> (r: R)
    requires
        forall|cs: CriticalSection| f.requires((cs,)),
    ensures
        exists|cs: CriticalSection| f.ensures((cs,), r),
{
    enter(f)
}

/// A value that is reached only through a token of the critical section.
#[verifier::reject_recursive_types(T)]
pub struct Guarded<T> {
    inner: critical_section::Mutex<T>,
    /// The value the mutex holds.
    value: Ghost<T>,
}

/// Relies on critical_section::Mutex::new: the mutex takes `value` over.
#[verifier::external_body]
fn new_mutex<T>(value: T) -> (m: critical_section::Mutex<T>) {
    critical_section::Mutex::new(value)
}

/// Relies on critical_section::Mutex::borrow: it hands out the value the mutex
/// holds, which `Guarded::new` recorded.
#[verifier::external_body]
fn borrow_mutex<'cs, T>(m: &'cs Guarded<T>, cs: CriticalSection<'cs>) -> (r: &'cs T)
    ensures
        *r == m.value@,
{
    m.inner.borrow(cs)
}

/// Relies on critical_section::Mutex::into_inner: it gives back the value the
/// mutex holds.
#[verifier::external_body]
fn unwrap_mutex<T>(m: Guarded<T>) -> (r: T)
    ensures
        r == m.value@,
{
    m.inner.into_inner()
}

/// Relies on critical_section::Mutex::get_mut: exclusive access to the value
/// the mutex holds, so what is left behind the reference is what it then holds.
#[verifier::external_body]
fn get_mut_mutex<T>(m: &mut Guarded<T>) -> (r: &mut T)
    ensures
        *r == old(m).value@,
        final(m).value@ == *final(r),
{
    m.inner.get_mut()
}

impl<T> Guarded<T> {
    /// The value the mutex holds.
    pub closed spec fn view(&self) -> T {
        self.value@
    }

    pub fn new(value: T) -> (m: Guarded<T>)
        ensures
            m.view() == value,
    {
        let ghost v = value;
        Guarded { inner: new_mutex(value), value: Ghost(v) }
    }

    /// The held value, for as long as the token's critical section lasts.
    pub fn borrow<'cs>(&'cs self, cs: CriticalSection<'cs>) -> (r: &'cs T)
        ensures
            *r == self.view(),
    {
        borrow_mutex(self, cs)
    }

    /// The held value, through exclusive access to the mutex; no critical
    /// section is needed.
    pub fn get_mut(&mut self) -> (r: &mut T)
        ensures
            *r == old(self).view(),
            final(self).view() == *final(r),
    {
        get_mut_mutex(self)
    }

    /// Takes the held value back out, consuming the mutex.
    pub fn into_inner(self) -> (r: T)
        ensures
            r == self.view(),
    {
        unwrap_mutex(self)
    }
}

/// Within one critical section, borrows of a mutex with no write between them
/// see the same value.
pub proof fn lemma_borrow_is_stable<T>(m: Guarded<T>, first: T, second: T)
    requires
        first == m.view(),
        second == m.view(),
    ensures
        first == second,
{
}

} // verus!

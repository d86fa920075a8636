//! The older protocol, in which a restore state is always one byte. Callers
//! built against it keep working on top of the selected representation as long
//! as that representation fits in a byte; otherwise every use of this path
//! reports an error instead of cutting the state short.
use vstd::prelude::*;
use crate::raw::{max_value, RawRestoreState, Width};

verus! {

/// Why a value cannot cross between the byte protocol and the selected one.
#[derive(Clone, Copy, Debug, PartialEq, Eq, Structural)]
pub enum LegacyError {
    /// The selected representation is wider than a byte.
    TooWide,
    /// The byte holds a value that the selected representation cannot carry.
    OutOfRange,
}

/// The representations that fit in the byte of the older protocol.
pub open spec fn fits_legacy(w: Width) -> bool {
    w == Width::Unit || w == Width::Bool || w == Width::U8
}

pub fn is_legacy_compatible(w: Width) -> (r: bool)
    ensures
        r == fits_legacy(w),
{
    match w {
        Width::Unit | Width::Bool | Width::U8 => true,
        _ => false,
    }
}

/// The byte that the older protocol hands out for `raw`.
pub fn to_legacy(raw: RawRestoreState) -> (r: Result<u8, LegacyError>)
    ensures
        r.is_ok() <==> fits_legacy(raw.width_spec()),
        r matches Ok(b) ==> b as nat == raw.value(),
        r matches Err(e) ==> e == LegacyError::TooWide,
{
    match raw {
        RawRestoreState::Unit => Ok(0),
        RawRestoreState::Bool(b) => Ok(if b { 1 } else { 0 }),
        RawRestoreState::U8(v) => Ok(v),
        _ => Err(LegacyError::TooWide),
    }
}

/// The raw state of representation `w` for a byte of the older protocol.
pub fn from_legacy(w: Width, b: u8) -> (r: Result<RawRestoreState, LegacyError>)
    ensures
        r.is_ok() <==> fits_legacy(w) && b as nat <= max_value(w),
        r matches Ok(s) ==> s.width_spec() == w && s.value() == b as nat,
        r matches Err(e) ==> (e == LegacyError::TooWide <==> !fits_legacy(w)),
{
    if !is_legacy_compatible(w) {
        return Err(LegacyError::TooWide);
    }
    match RawRestoreState::from_value(w, b as u64) {
        Some(s) => Ok(s),
        None => Err(LegacyError::OutOfRange),
    }
}

/// A raw state of a representation that fits in a byte comes back unchanged
/// from a trip through the older protocol: the byte that `to_legacy` gives for
/// it is accepted by `from_legacy` for that representation, and the one raw
/// state of that representation carrying that value is the state itself.
pub proof fn lemma_legacy_round_trip(raw: RawRestoreState, b: u8)
    requires
        fits_legacy(raw.width_spec()),
        b as nat == raw.value(),
    ensures
        b as nat <= max_value(raw.width_spec()),
        forall|s: RawRestoreState|
            s.width_spec() == raw.width_spec() && s.value() == b as nat ==> s == raw,
{
}

} // verus!

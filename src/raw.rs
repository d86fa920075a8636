//! Raw restore states: the plain value an implementation hands from `acquire`
//! to the matching `release`, in one of the representations a build can select.
use vstd::prelude::*;

verus! {

/// The representation of raw restore states selected for a build.
#[derive(Clone, Copy, Debug, PartialEq, Eq, Structural)]
pub enum Width {
    Unit,
    Bool,
    U8,
    U16,
    U32,
    U64,
}

/// A raw restore state in one of the selectable representations.
#[derive(Clone, Copy, Debug, PartialEq, Eq, Structural)]
pub enum RawRestoreState {
    Unit,
    Bool(bool),
    U8(u8),
    U16(u16),
    U32(u32),
    U64(u64),
}

/// The largest value a representation can carry.
pub open spec fn max_value(w: Width) -> nat {
    match w {
        Width::Unit => 0,
        Width::Bool => 1,
        Width::U8 => 0xff,
        Width::U16 => 0xffff,
        Width::U32 => 0xffff_ffff,
        Width::U64 => 0xffff_ffff_ffff_ffff,
    }
}

impl RawRestoreState {
    /// The representation this value is written in.
    pub open spec fn width_spec(self) -> Width {
        match self {
            RawRestoreState::Unit => Width::Unit,
            RawRestoreState::Bool(_) => Width::Bool,
            RawRestoreState::U8(_) => Width::U8,
            RawRestoreState::U16(_) => Width::U16,
            RawRestoreState::U32(_) => Width::U32,
            RawRestoreState::U64(_) => Width::U64,
        }
    }

    /// The number the value carries: nothing is 0, a flag is 0 or 1.
    pub open spec fn value(self) -> nat {
        match self {
            RawRestoreState::Unit => 0,
            RawRestoreState::Bool(b) => if b { 1 } else { 0 },
            RawRestoreState::U8(v) => v as nat,
            RawRestoreState::U16(v) => v as nat,
            RawRestoreState::U32(v) => v as nat,
            RawRestoreState::U64(v) => v as nat,
        }
    }

    pub fn width(&self) -> (w: Width)
        ensures
            w == self.width_spec(),
    {
        match self {
            RawRestoreState::Unit => Width::Unit,
            RawRestoreState::Bool(_) => Width::Bool,
            RawRestoreState::U8(_) => Width::U8,
            RawRestoreState::U16(_) => Width::U16,
            RawRestoreState::U32(_) => Width::U32,
            RawRestoreState::U64(_) => Width::U64,
        }
    }

    /// The value of a representation that carries `v`, if `v` fits in it.
    pub fn from_value(w: Width, v: u64) -> (r: Option<RawRestoreState>)
        ensures
            r.is_some() <==> v as nat <= max_value(w),
            r matches Some(s) ==> s.width_spec() == w && s.value() == v as nat,
    {
        match w {
            Width::Unit => if v == 0 { Some(RawRestoreState::Unit) } else { None },
            Width::Bool => if v <= 1 { Some(RawRestoreState::Bool(v == 1)) } else { None },
            Width::U8 => if v <= 0xff { Some(RawRestoreState::U8(v as u8)) } else { None },
            Width::U16 => if v <= 0xffff { Some(RawRestoreState::U16(v as u16)) } else { None },
            Width::U32 => if v <= 0xffff_ffff { Some(RawRestoreState::U32(v as u32)) } else { None },
            Width::U64 => Some(RawRestoreState::U64(v)),
        }
    }

    /// The number the value carries, widened to 64 bits.
    pub fn to_value(&self) -> (v: u64)
        ensures
            v as nat == self.value(),
    {
        match self {
            RawRestoreState::Unit => 0,
            RawRestoreState::Bool(b) => if *b { 1 } else { 0 },
            RawRestoreState::U8(v) => *v as u64,
            RawRestoreState::U16(v) => *v as u64,
            RawRestoreState::U32(v) => *v as u64,
            RawRestoreState::U64(v) => *v,
        }
    }
}

} // verus!

//! A single process-wide critical section for bare-metal code: a scoped entry
//! point, the nesting algebra of acquire and release, the restore-state
//! representations, an adapter for the older 8-bit protocol, and a value that
//! can only be reached while the section is held.
use vstd::prelude::*;

pub mod raw;
pub mod legacy;
pub mod nesting;
pub mod section;

pub use critical_section::CriticalSection;
pub use section::{with, Guarded};

verus! {

} // verus!

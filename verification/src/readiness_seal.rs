//! The seal of the readiness-evidence trait: only types of this crate may vouch
//! for gameplay readiness.

use vstd::prelude::*;

verus! {

/// Implemented only by readiness evidence types of this crate.
pub trait Sealed {
}

} // verus!

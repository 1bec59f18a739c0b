//! The engine's exported entry points and the plan of its asset build.

pub mod build_plan;

use vstd::prelude::*;

verus! {

/// Returns the number that follows `i`.
///
/// `u32::MAX` has no successor in `u32`, so it is not accepted.
pub fn increment(i: u32) -> (next: u32)
    requires
        i < u32::MAX,
    ensures
        next == i + 1,
{
    i + 1
}

} // verus!

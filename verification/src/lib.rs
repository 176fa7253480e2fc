pub mod brush_modes;
pub mod brush_json;
pub mod brush_settings;
pub mod dab_mask;
pub mod mapping;
pub mod rng_seed;
pub mod smudge;

use vstd::prelude::*;

verus! {

/// Sum of two unsigned integers.
pub fn add(left: u64, right: u64) -> (sum: u64)
    requires
        left + right <= u64::MAX,
    ensures
        sum == left + right,
{
    left + right
}

} // verus!

//! The one randomness source of the game: a bounded uniform draw.  The draw
//! itself is done by macroquad's pseudo-random generator; the library states
//! only the bound that holds of every outcome and never assumes which value
//! comes back.
use vstd::prelude::*;

verus! {

/// Relies on macroquad::rand::gen_range on u32 (quad_rand's `RandomRange`):
/// it scales a raw draw into `low + (high - low) * r` with `r` in `[0, 1)`
/// computed in `f64` and truncates.  The mathematical value is below `high`,
/// but rounding of the final sum can land on `high` itself, so only the
/// closed bound is promised.
#[verifier::external_body]
pub(crate) fn gen_range_u32(low: u32, high: u32) -> (r: u32)
    requires
        low < high,
    ensures
        low <= r <= high,
{
    macroquad::rand::gen_range(low, high)
}

} // verus!

//! Saturating 32-bit arithmetic.
//!
//! Duty and delay computations must never wrap: a runaway product would turn
//! into a wild delay or duty value. Products are therefore capped at
//! `u32::MAX`.

use vstd::prelude::*;

verus! {

/// `a * b`, capped at `u32::MAX`.
pub open spec fn spec_sat_mul(a: u32, b: u32) -> u32 {
    if a * b > u32::MAX {
        u32::MAX
    } else {
        (a * b) as u32
    }
}

/// `a + b`, capped at `u32::MAX`.
pub open spec fn spec_sat_add(a: u32, b: u32) -> u32 {
    if a + b > u32::MAX {
        u32::MAX
    } else {
        (a + b) as u32
    }
}

/// Saturating product of two 32-bit values.
pub fn sat_mul(a: u32, b: u32) -> (r: u32)
    ensures
        r == spec_sat_mul(a, b),
{
    match a.checked_mul(b) {
        Some(v) => v,
        None => u32::MAX,
    }
}

} // verus!

//! Saturating integer helpers.
//!
//! Resource pools, unit counts and timestamps are unsigned 64-bit values.
//! Where the game formulas can exceed that width the core saturates at
//! `u64::MAX` instead of wrapping or failing, so every operation stays total;
//! below the saturation point all arithmetic is exact.

use vstd::prelude::*;
use vstd::arithmetic::div_mod::{lemma_div_is_ordered, lemma_div_multiples_vanish};

verus! {

/// The saturation point of every 64-bit quantity of the core.
pub open spec fn cap() -> int {
    u64::MAX as int
}

/// Mathematical value of a saturating 64-bit addition.
pub open spec fn sat_add_spec(a: int, b: int) -> int {
    if a + b > cap() {
        cap()
    } else {
        a + b
    }
}

/// `min` over mathematical integers.
pub open spec fn min_spec(a: int, b: int) -> int {
    if a < b {
        a
    } else {
        b
    }
}

/// `max` over mathematical integers.
pub open spec fn max_spec(a: int, b: int) -> int {
    if a > b {
        a
    } else {
        b
    }
}

/// Adds two pool-sized values, saturating at the 64-bit cap.
pub fn sat_add(a: u64, b: u64) -> (r: u64)
    ensures
        r as int == sat_add_spec(a as int, b as int),
{
    if a <= u64::MAX - b {
        a + b
    } else {
        u64::MAX
    }
}

/// Increments a level or count, saturating at the 64-bit cap.
pub fn sat_inc(a: u64) -> (r: u64)
    ensures
        r as int == sat_add_spec(a as int, 1),
{
    if a < u64::MAX {
        a + 1
    } else {
        u64::MAX
    }
}

/// Narrows a wide intermediate value back to a pool-sized one, saturating.
pub fn clamp_u64(x: u128) -> (r: u64)
    ensures
        r as int == min_spec(x as int, cap()),
{
    if x > u64::MAX as u128 {
        u64::MAX
    } else {
        x as u64
    }
}

/// A quotient is bounded by any `k` whose product with the divisor bounds the
/// dividend.
pub proof fn lemma_div_le(num: int, d: int, k: int)
    requires
        0 <= num,
        1 <= d,
        num <= d * k,
    ensures
        num / d <= k,
{
    lemma_div_is_ordered(num, d * k, d);
    lemma_div_multiples_vanish(k, d);
}

/// Saturating addition distributes over clamping: adding two clamped
/// non-negative terms saturates exactly where the mathematical sum does.
pub proof fn lemma_sat_add_of_clamped(a: int, b: int)
    requires
        a >= 0,
        b >= 0,
    ensures
        sat_add_spec(min_spec(a, cap()), min_spec(b, cap())) == min_spec(a + b, cap()),
{
}

} // verus!

//! Resource accrual: turning elapsed time and a mine level into an
//! up-to-date resource amount.
//!
//! Accrual is applied lazily, per resource, whenever a planet is read or
//! acted upon. A negative elapsed time (clock skew) accrues nothing. The
//! gain over an interval is rounded up, so any positive production over a
//! positive interval credits at least one unit.

use vstd::prelude::*;
use vstd::arithmetic::div_mod::{lemma_div_is_ordered, lemma_div_pos_is_pos};
use vstd::arithmetic::mul::{lemma_mul_nonnegative, lemma_mul_strictly_positive, lemma_mul_upper_bound};
use crate::economy::{production_per_hour, production_per_hour_spec, lemma_production_positive, ResourceType};
use crate::num::{cap, min_spec};

verus! {

/// Seconds of production to credit between two reconciliations: never
/// negative, whatever the clocks said.
pub open spec fn elapsed_since(last: int, now: int) -> int {
    if now > last {
        now - last
    } else {
        0
    }
}

/// Units gained over `elapsed` seconds at `prod` units per hour, rounded up.
pub open spec fn gain_spec(prod: int, elapsed: int) -> int {
    (prod * elapsed + 3599) / 3600
}

/// The hourly production rate as stored arithmetic sees it: the curve value,
/// saturating at the 64-bit cap.
pub open spec fn clamped_production(res: ResourceType, level: int, speed: int) -> int {
    min_spec(production_per_hour_spec(res, level, speed), cap())
}

/// The up-to-date amount of one resource pool after `elapsed` seconds,
/// saturating at the 64-bit cap.
pub open spec fn accrue_spec(amount: int, res: ResourceType, level: int, speed: int, elapsed: int) -> int {
    min_spec(amount + gain_spec(clamped_production(res, level, speed), elapsed), cap())
}

/// Accrual never loses resources, and gains some exactly when time passed
/// and the mine has a level: equality holds if and only if `elapsed` or
/// `level` is zero.
pub proof fn lemma_accrue_monotone(amount: int, res: ResourceType, level: int, speed: int, elapsed: int)
    requires
        0 <= amount < cap(),
        level >= 0,
        speed >= 1,
        elapsed >= 0,
    ensures
        accrue_spec(amount, res, level, speed, elapsed) >= amount,
        accrue_spec(amount, res, level, speed, elapsed) == amount <==> (elapsed == 0 || level == 0),
{
    lemma_production_positive(res, level, speed);
    let p = clamped_production(res, level, speed);
    let g = gain_spec(p, elapsed);
    lemma_mul_nonnegative(p, elapsed);
    lemma_div_pos_is_pos(p * elapsed + 3599, 3600);
    if elapsed == 0 || level == 0 {
        assert(p * elapsed == 0) by (nonlinear_arith)
            requires
                p == 0 || elapsed == 0,
        ;
        assert(g == 0);
    } else {
        lemma_mul_strictly_positive(p, elapsed);
        lemma_div_is_ordered(3600, p * elapsed + 3599, 3600);
        assert(g >= 1);
    }
}

/// Accrual over a zero interval returns the amount unchanged.
pub proof fn lemma_accrue_zero_elapsed(amount: int, res: ResourceType, level: int, speed: int)
    requires
        0 <= amount <= cap(),
        level >= 0,
        speed >= 1,
    ensures
        accrue_spec(amount, res, level, speed, 0) == amount,
{
    let p = clamped_production(res, level, speed);
    lemma_production_positive(res, level, speed);
    assert(p * 0 == 0);
}

/// Brings one resource pool up to date: credits the production of the mine
/// at `level` over the time between `last_update` and `now`.
pub fn calculate_resources(
    res: ResourceType,
    level: u64,
    current_amount: u64,
    last_update: u64,
    now: u64,
    speed: u64,
) -> (r: u64)
    requires
        speed >= 1,
    ensures
        r as int == accrue_spec(
            current_amount as int,
            res,
            level as int,
            speed as int,
            elapsed_since(last_update as int, now as int),
        ),
{
    let elapsed: u64 = if now > last_update {
        now - last_update
    } else {
        0
    };
    let prod: u64 = production_per_hour(res, level, speed);
    proof {
        lemma_mul_upper_bound(prod as int, u64::MAX as int, elapsed as int, u64::MAX as int);
        lemma_mul_nonnegative(prod as int, elapsed as int);
    }
    let wide: u128 = ((prod as u128) * (elapsed as u128) + 3599) / 3600;
    let total: u128 = (current_amount as u128) + wide;
    if total > u64::MAX as u128 {
        u64::MAX
    } else {
        total as u64
    }
}

} // verus!

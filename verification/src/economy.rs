//! Economy calculator: production rates, upgrade costs, build durations and
//! energy draw.
//!
//! Every formula is a pure function of its arguments; nothing here consults a
//! clock or a store. The game's exponential curves (a growth factor of 1.1
//! per mine level, cost factors of 1.5, 1.6 or 2.0 per upgrade) are computed
//! as iterated multiplication by a rational constant in integer arithmetic,
//! so each executable function is pinned to the spec-level curve exactly, up
//! to the 64-bit saturation point.

use vstd::prelude::*;
use vstd::arithmetic::div_mod::{
    lemma_div_is_ordered, lemma_div_multiples_vanish, lemma_div_pos_is_pos,
};
use vstd::arithmetic::mul::{lemma_mul_inequality, lemma_mul_nonnegative};
use crate::num::{cap, clamp_u64, max_spec, min_spec, sat_add, lemma_sat_add_of_clamped};

verus! {

/// The three continuously produced resources.
#[derive(Clone, Copy, Debug, PartialEq, Eq, Structural)]
pub enum ResourceType {
    Metal,
    Crystal,
    Deuterium,
}

/// The structures and technologies the single-slot structure/tech queue can
/// level up.
#[derive(Clone, Copy, Debug, PartialEq, Eq, Structural)]
pub enum BuildKind {
    MetalMine,
    CrystalMine,
    DeuteriumMine,
    EnergyTech,
    Research,
    Laser,
    Espionage,
}

/// The units and static defenses the shipyard queue can produce.
#[derive(Clone, Copy, Debug, PartialEq, Eq, Structural)]
pub enum ShipKind {
    LightHunter,
    Cruiser,
    Recycler,
    SpyProbe,
    MissileLauncher,
    PlasmaTurret,
}

/// A price in the three resources.
#[derive(Clone, Copy, Debug, PartialEq, Eq, Structural)]
pub struct Cost {
    pub metal: u64,
    pub crystal: u64,
    pub deuterium: u64,
}

// --- geometric growth by a rational factor ---

/// `n`-fold application of `x ↦ x·num/den` in integer arithmetic: the exact
/// value the executable curve computations produce below saturation.
pub open spec fn scale_iter(x: int, num: int, den: int, n: nat) -> int
    decreases n,
{
    if n == 0 {
        x
    } else {
        scale_iter(x, num, den, (n - 1) as nat) * num / den
    }
}

/// One growth step never shrinks a non-negative value when the factor is at
/// least one.
pub proof fn lemma_scale_step_ge(a: int, num: int, den: int)
    requires
        a >= 0,
        1 <= den <= num,
    ensures
        a * num / den >= a,
        a * num / den >= 0,
{
    lemma_mul_inequality(den, num, a);
    assert(a * den <= a * num) by {
        lemma_mul_inequality(den, num, a);
        assert(den * a <= num * a);
    };
    lemma_div_is_ordered(a * den, a * num, den);
    lemma_div_multiples_vanish(a, den);
    assert(a * den == den * a);
    lemma_mul_nonnegative(a, num);
    lemma_div_pos_is_pos(a * num, den);
}

/// Iterated growth stays non-negative and never falls below its base.
pub proof fn lemma_scale_iter_ge_base(x: int, num: int, den: int, n: nat)
    requires
        x >= 0,
        1 <= den <= num,
    ensures
        scale_iter(x, num, den, n) >= x,
        scale_iter(x, num, den, n) >= 0,
    decreases n,
{
    if n > 0 {
        lemma_scale_iter_ge_base(x, num, den, (n - 1) as nat);
        lemma_scale_step_ge(scale_iter(x, num, den, (n - 1) as nat), num, den);
    }
}

/// Growth from a zero base stays zero.
pub proof fn lemma_scale_iter_zero(num: int, den: int, n: nat)
    requires
        1 <= den,
    ensures
        scale_iter(0, num, den, n) == 0,
    decreases n,
{
    if n > 0 {
        lemma_scale_iter_zero(num, den, (n - 1) as nat);
    }
}

/// One growth step by a factor of at least 1.5 strictly increases any value
/// that is at least two.
pub proof fn lemma_scale_step_strict(a: int, num: int, den: int)
    requires
        a >= 2,
        1 <= den,
        3 * den <= 2 * num,
    ensures
        a * num / den >= a + 1,
{
    // a·num = a·den + a·(num − den) and a·(num − den) ≥ 2·(num − den) ≥ den.
    assert(a * num >= den * (a + 1)) by (nonlinear_arith)
        requires
            a >= 2,
            1 <= den,
            3 * den <= 2 * num,
    ;
    lemma_div_is_ordered(den * (a + 1), a * num, den);
    lemma_div_multiples_vanish(a + 1, den);
}

/// Cost curves with a factor of at least 1.5 strictly dominate level over
/// level, for every base of at least two.
pub proof fn lemma_scale_iter_strictly_grows(x: int, num: int, den: int, n: nat)
    requires
        x >= 2,
        1 <= den,
        3 * den <= 2 * num,
    ensures
        scale_iter(x, num, den, n) >= x,
        scale_iter(x, num, den, (n + 1) as nat) > scale_iter(x, num, den, n),
    decreases n,
{
    if n == 0 {
        lemma_scale_step_strict(x, num, den);
    } else {
        lemma_scale_iter_strictly_grows(x, num, den, (n - 1) as nat);
        lemma_scale_step_strict(scale_iter(x, num, den, n), num, den);
    }
}

/// Clamping before a growth step lands where clamping after it does.
proof fn lemma_scale_clamp_step(s: int, num: int, den: int)
    requires
        s >= 0,
        1 <= den <= num,
    ensures
        min_spec(min_spec(s, cap()) * num / den, cap()) == min_spec(s * num / den, cap()),
{
    if s > cap() {
        lemma_scale_step_ge(cap(), num, den);
        lemma_scale_step_ge(s, num, den);
    }
}

/// Clamping the base before iterated growth lands where clamping the final
/// value does.
proof fn lemma_scale_iter_clamp_base(x: int, num: int, den: int, n: nat)
    requires
        x >= 0,
        1 <= den <= num,
    ensures
        min_spec(scale_iter(min_spec(x, cap()), num, den, n), cap())
            == min_spec(scale_iter(x, num, den, n), cap()),
{
    if x > cap() {
        lemma_scale_iter_ge_base(cap(), num, den, n);
        lemma_scale_iter_ge_base(x, num, den, n);
    }
}

/// Computes `scale_iter(x, num, den, n)` exactly, saturating at the 64-bit
/// cap.
fn scale_iter_exec(x: u64, num: u64, den: u64, n: u64) -> (r: u64)
    requires
        1 <= den <= num,
        num <= 16,
    ensures
        r as int == min_spec(scale_iter(x as int, num as int, den as int, n as nat), cap()),
{
    let mut g: u64 = x;
    let mut i: u64 = 0;
    while i < n
        invariant
            0 <= i <= n,
            1 <= den <= num,
            num <= 16,
            g as int == min_spec(scale_iter(x as int, num as int, den as int, i as nat), cap()),
        decreases n - i,
    {
        proof {
            lemma_scale_iter_ge_base(x as int, num as int, den as int, i as nat);
            lemma_scale_clamp_step(
                scale_iter(x as int, num as int, den as int, i as nat),
                num as int,
                den as int,
            );
        }
        proof {
            assert((g as int) * (num as int) <= (u64::MAX as int) * 16) by (nonlinear_arith)
                requires
                    0 <= g as int <= u64::MAX as int,
                    0 <= num as int <= 16,
            ;
        }
        let wide: u128 = (g as u128) * (num as u128) / (den as u128);
        g = clamp_u64(wide);
        i = i + 1;
    }
    g
}

// --- production ---

/// Hourly base production of one mine level step, before growth and speed.
pub open spec fn base_production(res: ResourceType) -> int {
    match res {
        ResourceType::Metal => 30,
        ResourceType::Crystal => 20,
        ResourceType::Deuterium => 10,
    }
}

/// Hourly production of a mine: `base·level·speed`, grown by a factor of
/// 11/10 once per level.
pub open spec fn production_per_hour_spec(res: ResourceType, level: int, speed: int) -> int {
    if level <= 0 {
        0
    } else {
        scale_iter(base_production(res) * level * speed, 11, 10, level as nat)
    }
}

/// A mine of positive level at positive speed always produces something.
pub proof fn lemma_production_positive(res: ResourceType, level: int, speed: int)
    requires
        level >= 0,
        speed >= 1,
    ensures
        production_per_hour_spec(res, level, speed) >= 0,
        production_per_hour_spec(res, level, speed) == 0 <==> level == 0,
{
    if level > 0 {
        assert(base_production(res) * level * speed >= 1) by (nonlinear_arith)
            requires
                level >= 1,
                speed >= 1,
                base_production(res) >= 10,
        ;
        lemma_scale_iter_ge_base(base_production(res) * level * speed, 11, 10, level as nat);
    }
}

/// Hourly production of a mine, saturating at the 64-bit cap.
pub fn production_per_hour(res: ResourceType, level: u64, speed: u64) -> (r: u64)
    requires
        speed >= 1,
    ensures
        r as int == min_spec(production_per_hour_spec(res, level as int, speed as int), cap()),
{
    if level == 0 {
        return 0;
    }
    let base: u64 = match res {
        ResourceType::Metal => 30,
        ResourceType::Crystal => 20,
        ResourceType::Deuterium => 10,
    };
    let ghost full: int = base as int * level as int * speed as int;
    proof {
        lemma_mul_nonnegative(base as int * level as int, speed as int);
        lemma_mul_nonnegative(base as int, level as int);
        if base as int * level as int > cap() {
            // the clamped base still saturates the curve
            lemma_mul_inequality(1, speed as int, base as int * level as int);
        }
    }
    let bl: u64 = clamp_u64((base as u128) * (level as u128));
    proof {
        if (base as int * level as int) > cap() {
            assert(full >= base as int * level as int) by (nonlinear_arith)
                requires
                    speed >= 1,
                    base as int * level as int >= 0,
                    full == base as int * level as int * speed as int,
            ;
        }
        assert(min_spec(bl as int * speed as int, cap()) == min_spec(full, cap())) by {
            if (base as int * level as int) <= cap() {
                assert(bl as int == base as int * level as int);
            } else {
                assert(bl as int == cap());
                assert(bl as int * speed as int >= bl as int) by (nonlinear_arith)
                    requires
                        speed >= 1,
                        bl as int >= 0,
                ;
            }
        };
    }
    proof {
        assert((bl as int) * (speed as int) < (u64::MAX as int + 1) * (u64::MAX as int + 1))
            by (nonlinear_arith)
            requires
                0 <= bl as int <= u64::MAX as int,
                0 <= speed as int <= u64::MAX as int,
        ;
    }
    let x: u64 = clamp_u64((bl as u128) * (speed as u128));
    proof {
        lemma_scale_iter_clamp_base(full, 11, 10, level as nat);
    }
    scale_iter_exec(x, 11, 10, level)
}

// --- upgrade costs ---

/// Base metal price of the first level of each structure or technology.
pub open spec fn cost_base_metal(kind: BuildKind) -> int {
    match kind {
        BuildKind::MetalMine => 60,
        BuildKind::CrystalMine => 48,
        BuildKind::DeuteriumMine => 225,
        BuildKind::EnergyTech => 0,
        BuildKind::Research => 200,
        BuildKind::Laser => 1500,
        BuildKind::Espionage => 200,
    }
}

/// Base crystal price of the first level of each structure or technology.
pub open spec fn cost_base_crystal(kind: BuildKind) -> int {
    match kind {
        BuildKind::MetalMine => 15,
        BuildKind::CrystalMine => 24,
        BuildKind::DeuteriumMine => 75,
        BuildKind::EnergyTech => 800,
        BuildKind::Research => 400,
        BuildKind::Laser => 500,
        BuildKind::Espionage => 1000,
    }
}

/// Base deuterium price of the first level: only the technologies consume
/// deuterium, the three mines do not.
pub open spec fn cost_base_deuterium(kind: BuildKind) -> int {
    match kind {
        BuildKind::MetalMine => 0,
        BuildKind::CrystalMine => 0,
        BuildKind::DeuteriumMine => 0,
        BuildKind::EnergyTech => 400,
        BuildKind::Research => 200,
        BuildKind::Laser => 100,
        BuildKind::Espionage => 200,
    }
}

/// Numerator of the per-level cost factor (3/2, 8/5 or 2/1).
pub open spec fn cost_factor_num(kind: BuildKind) -> int {
    match kind {
        BuildKind::MetalMine => 3,
        BuildKind::CrystalMine => 8,
        BuildKind::DeuteriumMine => 3,
        BuildKind::EnergyTech => 2,
        BuildKind::Research => 2,
        BuildKind::Laser => 2,
        BuildKind::Espionage => 2,
    }
}

/// Denominator of the per-level cost factor.
pub open spec fn cost_factor_den(kind: BuildKind) -> int {
    match kind {
        BuildKind::MetalMine => 2,
        BuildKind::CrystalMine => 5,
        BuildKind::DeuteriumMine => 2,
        BuildKind::EnergyTech => 1,
        BuildKind::Research => 1,
        BuildKind::Laser => 1,
        BuildKind::Espionage => 1,
    }
}

/// Number of cost-factor applications to reach `next_level`.
pub open spec fn level_steps(next_level: int) -> nat {
    if next_level >= 1 {
        (next_level - 1) as nat
    } else {
        0
    }
}

/// Metal component of the price of upgrading `kind` to `next_level`.
pub open spec fn upgrade_cost_metal_spec(kind: BuildKind, next_level: int) -> int {
    scale_iter(cost_base_metal(kind), cost_factor_num(kind), cost_factor_den(kind), level_steps(next_level))
}

/// Crystal component of the price of upgrading `kind` to `next_level`.
pub open spec fn upgrade_cost_crystal_spec(kind: BuildKind, next_level: int) -> int {
    scale_iter(cost_base_crystal(kind), cost_factor_num(kind), cost_factor_den(kind), level_steps(next_level))
}

/// Deuterium component of the price of upgrading `kind` to `next_level`.
pub open spec fn upgrade_cost_deuterium_spec(kind: BuildKind, next_level: int) -> int {
    scale_iter(cost_base_deuterium(kind), cost_factor_num(kind), cost_factor_den(kind), level_steps(next_level))
}

/// Price of upgrading `kind` to `next_level`, each component saturating at
/// the 64-bit cap.
pub fn get_upgrade_cost(kind: BuildKind, next_level: u64) -> (r: Cost)
    requires
        next_level >= 1,
    ensures
        r.metal as int == min_spec(upgrade_cost_metal_spec(kind, next_level as int), cap()),
        r.crystal as int == min_spec(upgrade_cost_crystal_spec(kind, next_level as int), cap()),
        r.deuterium as int == min_spec(upgrade_cost_deuterium_spec(kind, next_level as int), cap()),
{
    let (bm, bc, bd): (u64, u64, u64) = match kind {
        BuildKind::MetalMine => (60, 15, 0),
        BuildKind::CrystalMine => (48, 24, 0),
        BuildKind::DeuteriumMine => (225, 75, 0),
        BuildKind::EnergyTech => (0, 800, 400),
        BuildKind::Research => (200, 400, 200),
        BuildKind::Laser => (1500, 500, 100),
        BuildKind::Espionage => (200, 1000, 200),
    };
    let (num, den): (u64, u64) = match kind {
        BuildKind::MetalMine => (3, 2),
        BuildKind::CrystalMine => (8, 5),
        BuildKind::DeuteriumMine => (3, 2),
        BuildKind::EnergyTech => (2, 1),
        BuildKind::Research => (2, 1),
        BuildKind::Laser => (2, 1),
        BuildKind::Espionage => (2, 1),
    };
    let steps: u64 = next_level - 1;
    Cost {
        metal: scale_iter_exec(bm, num, den, steps),
        crystal: scale_iter_exec(bc, num, den, steps),
        deuterium: scale_iter_exec(bd, num, den, steps),
    }
}

/// The upgrade price strictly grows with the level in its crystal component
/// for every kind, and in its metal component for every kind that has a metal
/// price at all (energy technology costs no metal at any level).
pub proof fn lemma_upgrade_cost_dominates(kind: BuildKind, next_level: int)
    requires
        next_level >= 1,
    ensures
        upgrade_cost_crystal_spec(kind, next_level + 1) > upgrade_cost_crystal_spec(kind, next_level),
        upgrade_cost_metal_spec(kind, next_level + 1) >= upgrade_cost_metal_spec(kind, next_level),
        !(kind is EnergyTech) ==> upgrade_cost_metal_spec(kind, next_level + 1)
            > upgrade_cost_metal_spec(kind, next_level),
{
    let num = cost_factor_num(kind);
    let den = cost_factor_den(kind);
    let n = level_steps(next_level);
    assert(level_steps(next_level + 1) == n + 1);
    lemma_scale_iter_strictly_grows(cost_base_crystal(kind), num, den, n);
    if kind is EnergyTech {
        lemma_scale_iter_zero(num, den, n);
        lemma_scale_iter_zero(num, den, (n + 1) as nat);
    } else {
        lemma_scale_iter_strictly_grows(cost_base_metal(kind), num, den, n);
    }
}

// --- build durations ---

/// Seconds a structure or technology upgrade takes: the total metal and
/// crystal price over a reference cost of 2500 per hour, divided by the speed
/// factor, never under two seconds.
pub open spec fn build_time_spec(metal_cost: int, crystal_cost: int, speed: int) -> int {
    max_spec(2, (metal_cost + crystal_cost) * 36 / (25 * speed))
}

/// Seconds a structure or technology upgrade takes, saturating at the 64-bit
/// cap.
pub fn get_build_time(metal_cost: u64, crystal_cost: u64, speed: u64) -> (r: u64)
    requires
        speed >= 1,
    ensures
        r as int == min_spec(build_time_spec(metal_cost as int, crystal_cost as int, speed as int), cap()),
{
    let wide: u128 = ((metal_cost as u128) + (crystal_cost as u128)) * 36 / (25 * (speed as u128));
    let clamped: u64 = clamp_u64(wide);
    if clamped < 2 {
        2
    } else {
        clamped
    }
}

/// Seconds a shipyard batch takes: 20 per unit, divided by the speed factor,
/// never under one second for the whole batch.
pub open spec fn ship_time_spec(quantity: int, speed: int) -> int {
    max_spec(1, quantity * 20 / speed)
}

/// Seconds a shipyard batch of `quantity` units takes.
pub fn get_ship_production_time(quantity: u32, speed: u64) -> (r: u64)
    requires
        speed >= 1,
    ensures
        r as int == ship_time_spec(quantity as int, speed as int),
{
    let raw: u64 = (quantity as u64) * 20 / speed;
    if raw < 1 {
        1
    } else {
        raw
    }
}

// --- unit prices ---

/// Metal price of one unit of each shipyard kind.
pub open spec fn ship_cost_metal_spec(kind: ShipKind) -> int {
    match kind {
        ShipKind::LightHunter => 3000,
        ShipKind::Cruiser => 20000,
        ShipKind::Recycler => 10000,
        ShipKind::SpyProbe => 0,
        ShipKind::MissileLauncher => 2000,
        ShipKind::PlasmaTurret => 50000,
    }
}

/// Crystal price of one unit of each shipyard kind.
pub open spec fn ship_cost_crystal_spec(kind: ShipKind) -> int {
    match kind {
        ShipKind::LightHunter => 1000,
        ShipKind::Cruiser => 7000,
        ShipKind::Recycler => 6000,
        ShipKind::SpyProbe => 1000,
        ShipKind::MissileLauncher => 0,
        ShipKind::PlasmaTurret => 50000,
    }
}

/// Price of one unit of a shipyard kind; no unit costs deuterium.
pub fn ship_unit_cost(kind: ShipKind) -> (r: Cost)
    ensures
        r.metal as int == ship_cost_metal_spec(kind),
        r.crystal as int == ship_cost_crystal_spec(kind),
        r.deuterium == 0,
{
    let (m, c): (u64, u64) = match kind {
        ShipKind::LightHunter => (3000, 1000),
        ShipKind::Cruiser => (20000, 7000),
        ShipKind::Recycler => (10000, 6000),
        ShipKind::SpyProbe => (0, 1000),
        ShipKind::MissileLauncher => (2000, 0),
        ShipKind::PlasmaTurret => (50000, 50000),
    };
    Cost { metal: m, crystal: c, deuterium: 0 }
}

/// Metal and crystal price of one light hunter.
pub fn get_light_hunter_stats() -> (r: (u64, u64))
    ensures
        r.0 == 3000,
        r.1 == 1000,
{
    (3000, 1000)
}

/// Metal and crystal price of one spy probe.
pub fn get_spy_probe_stats() -> (r: (u64, u64))
    ensures
        r.0 == 0,
        r.1 == 1000,
{
    (0, 1000)
}

/// Metal and crystal price of one missile launcher.
pub fn get_missile_launcher_stats() -> (r: (u64, u64))
    ensures
        r.0 == 2000,
        r.1 == 0,
{
    (2000, 0)
}

/// Metal and crystal price of one plasma turret.
pub fn get_plasma_turret_stats() -> (r: (u64, u64))
    ensures
        r.0 == 50000,
        r.1 == 50000,
{
    (50000, 50000)
}

// --- energy draw ---

/// Energy draw of one structure: `coef·level`, grown by 11/10 once per level.
pub open spec fn energy_draw_spec(coef: int, level: int) -> int {
    if level <= 0 {
        0
    } else {
        scale_iter(coef * level, 11, 10, level as nat)
    }
}

/// Total energy draw of the three mines. Informational only: no blackout
/// mechanic consumes it.
pub open spec fn energy_consumption_spec(metal_level: int, crystal_level: int, deuterium_level: int) -> int {
    energy_draw_spec(10, metal_level) + energy_draw_spec(10, crystal_level)
        + energy_draw_spec(20, deuterium_level)
}

/// Energy draw of one structure, saturating at the 64-bit cap.
fn energy_draw(coef: u64, level: u64) -> (r: u64)
    requires
        1 <= coef <= 20,
    ensures
        r as int == min_spec(energy_draw_spec(coef as int, level as int), cap()),
{
    if level == 0 {
        return 0;
    }
    proof {
        assert((coef as int) * (level as int) <= 20 * (u64::MAX as int)) by (nonlinear_arith)
            requires
                0 <= coef as int <= 20,
                0 <= level as int <= u64::MAX as int,
        ;
    }
    let x: u64 = clamp_u64((coef as u128) * (level as u128));
    proof {
        lemma_mul_nonnegative(coef as int, level as int);
        lemma_scale_iter_clamp_base(coef as int * level as int, 11, 10, level as nat);
    }
    scale_iter_exec(x, 11, 10, level)
}

/// Total energy draw of the three mines, saturating at the 64-bit cap.
pub fn energy_consumption(metal_level: u64, crystal_level: u64, deuterium_level: u64) -> (r: u64)
    ensures
        r as int == min_spec(
            energy_consumption_spec(metal_level as int, crystal_level as int, deuterium_level as int),
            cap(),
        ),
{
    let m: u64 = energy_draw(10, metal_level);
    let c: u64 = energy_draw(10, crystal_level);
    let d: u64 = energy_draw(20, deuterium_level);
    proof {
        lemma_energy_draw_nonneg(10, metal_level as int);
        lemma_energy_draw_nonneg(10, crystal_level as int);
        lemma_energy_draw_nonneg(20, deuterium_level as int);
        lemma_sat_add_of_clamped(
            energy_draw_spec(10, metal_level as int),
            energy_draw_spec(10, crystal_level as int),
        );
        lemma_sat_add_of_clamped(
            energy_draw_spec(10, metal_level as int) + energy_draw_spec(10, crystal_level as int),
            energy_draw_spec(20, deuterium_level as int),
        );
    }
    sat_add(sat_add(m, c), d)
}

// --- kind codes ---

/// Which structure or technology kind a wire code names; any unknown code is
/// `InvalidKind`.
pub open spec fn build_kind_of_code(code: Seq<char>) -> Result<BuildKind, crate::errors::GameError> {
    if code == "metal"@ {
        Ok(BuildKind::MetalMine)
    } else if code == "crystal"@ {
        Ok(BuildKind::CrystalMine)
    } else if code == "deuterium"@ {
        Ok(BuildKind::DeuteriumMine)
    } else if code == "energy_tech"@ {
        Ok(BuildKind::EnergyTech)
    } else if code == "research"@ {
        Ok(BuildKind::Research)
    } else if code == "laser"@ {
        Ok(BuildKind::Laser)
    } else if code == "espionage"@ {
        Ok(BuildKind::Espionage)
    } else {
        Err(crate::errors::GameError::InvalidKind)
    }
}

/// Parses the wire code of a structure or technology kind. Any unknown code
/// fails with `InvalidKind`, before anything is touched.
pub fn parse_build_kind(code: &String) -> (r: Result<crate::economy::BuildKind, crate::errors::GameError>)
    ensures
        r == build_kind_of_code(code@),
{
    if code.eq(&"metal".to_owned()) {
        Ok(BuildKind::MetalMine)
    } else if code.eq(&"crystal".to_owned()) {
        Ok(BuildKind::CrystalMine)
    } else if code.eq(&"deuterium".to_owned()) {
        Ok(BuildKind::DeuteriumMine)
    } else if code.eq(&"energy_tech".to_owned()) {
        Ok(BuildKind::EnergyTech)
    } else if code.eq(&"research".to_owned()) {
        Ok(BuildKind::Research)
    } else if code.eq(&"laser".to_owned()) {
        Ok(BuildKind::Laser)
    } else if code.eq(&"espionage".to_owned()) {
        Ok(BuildKind::Espionage)
    } else {
        Err(crate::errors::GameError::InvalidKind)
    }
}

/// Which shipyard unit kind a wire code names; any unknown code is
/// `InvalidKind`.
pub open spec fn ship_kind_of_code(code: Seq<char>) -> Result<ShipKind, crate::errors::GameError> {
    if code == "light_hunter"@ {
        Ok(ShipKind::LightHunter)
    } else if code == "cruiser"@ {
        Ok(ShipKind::Cruiser)
    } else if code == "recycler"@ {
        Ok(ShipKind::Recycler)
    } else if code == "spy_probe"@ {
        Ok(ShipKind::SpyProbe)
    } else if code == "missile_launcher"@ {
        Ok(ShipKind::MissileLauncher)
    } else if code == "plasma_turret"@ {
        Ok(ShipKind::PlasmaTurret)
    } else {
        Err(crate::errors::GameError::InvalidKind)
    }
}

/// Parses the wire code of a shipyard unit kind. Any unknown code fails with
/// `InvalidKind`, before anything is touched.
pub fn parse_ship_kind(code: &String) -> (r: Result<ShipKind, crate::errors::GameError>)
    ensures
        r == ship_kind_of_code(code@),
{
    if code.eq(&"light_hunter".to_owned()) {
        Ok(ShipKind::LightHunter)
    } else if code.eq(&"cruiser".to_owned()) {
        Ok(ShipKind::Cruiser)
    } else if code.eq(&"recycler".to_owned()) {
        Ok(ShipKind::Recycler)
    } else if code.eq(&"spy_probe".to_owned()) {
        Ok(ShipKind::SpyProbe)
    } else if code.eq(&"missile_launcher".to_owned()) {
        Ok(ShipKind::MissileLauncher)
    } else if code.eq(&"plasma_turret".to_owned()) {
        Ok(ShipKind::PlasmaTurret)
    } else {
        Err(crate::errors::GameError::InvalidKind)
    }
}

/// Energy draw is never negative.
proof fn lemma_energy_draw_nonneg(coef: int, level: int)
    requires
        coef >= 0,
    ensures
        energy_draw_spec(coef, level) >= 0,
{
    if level > 0 {
        lemma_mul_nonnegative(coef, level);
        lemma_scale_iter_ge_base(coef * level, 11, 10, level as nat);
    }
}

} // verus!

//! The expedition resolver: a randomized player-versus-environment encounter,
//! resolved synchronously at launch.
//!
//! Randomness is drawn per call and immediately handed to deterministic,
//! fully specified logic: `resolve_expedition` computes the outcome of given
//! rolls, and `launch_expedition` promises that the applied outcome is the
//! resolution of *some* admissible rolls, whatever the generator returned.

use vstd::prelude::*;
use crate::errors::GameError;
use crate::num::{cap, lemma_div_le, max_spec, min_spec, sat_add, sat_add_spec};
use crate::planet::{BattleResult, CombatLogEntry, FleetCounts, MissionKind, Planet, ResourcePools};
use crate::reconcile::{reconcile, reconciled};

verus! {

/// Which side an expedition encounter went to.
#[derive(Clone, Copy, Debug, PartialEq, Eq, Structural)]
pub enum ExpeditionWinner {
    Player,
    Pirates,
    /// Both fleets destroyed, or the fight disengaged unresolved.
    Draw,
}

/// Outcome of one player-versus-environment engagement.
#[derive(Clone, Copy, Debug, PartialEq, Eq, Structural)]
pub struct CombatResult {
    pub victory: bool,
    pub ships_lost: u64,
}

/// Relies on `rand::random_range` over a half-open `u64` range: the result is
/// uniform in `[lo, hi)`; an empty range panics, which the precondition
/// excludes. Nothing about the distribution is assumed, only the bounds.
#[verifier::external_body]
pub(crate) fn roll_in(lo: u64, hi: u64) -> (r: u64)
    requires
        lo < hi,
    ensures
        lo <= r < hi,
{
    rand::random_range(lo..hi)
}

/// Whether the player's strength beats the drawn pirate strength.
pub open spec fn pve_victory_spec(fleet_size: int, defense_bonus: int, pirate_strength: int) -> bool {
    fleet_size + defense_bonus * 5 > pirate_strength
}

/// Ships lost to a drawn loss percentage.
pub open spec fn pve_ships_lost_spec(fleet_size: int, loss_pct: int) -> int {
    fleet_size * loss_pct / 100
}

/// Decides one pirate engagement from the fleet size, the laser-battery
/// bonus, and the two rolls: victory is a strict strength comparison, losses
/// a percentage of the fleet.
pub fn simulate_combat(fleet_size: u64, defense_bonus: u64, pirate_strength: u64, loss_pct: u64) -> (r: CombatResult)
    requires
        loss_pct <= 100,
    ensures
        r.victory == pve_victory_spec(fleet_size as int, defense_bonus as int, pirate_strength as int),
        r.ships_lost as int == pve_ships_lost_spec(fleet_size as int, loss_pct as int),
        r.ships_lost <= fleet_size,
{
    let strength: u128 = (fleet_size as u128) + (defense_bonus as u128) * 5;
    let victory: bool = strength > pirate_strength as u128;
    proof {
        vstd::arithmetic::mul::lemma_mul_nonnegative(fleet_size as int, loss_pct as int);
        assert((fleet_size as int) * (loss_pct as int) <= 100 * (fleet_size as int))
            by (nonlinear_arith)
            requires
                0 <= fleet_size as int,
                0 <= loss_pct as int <= 100,
        ;
        lemma_div_le((fleet_size as int) * (loss_pct as int), 100, fleet_size as int);
    }
    let ships_lost: u64 = (((fleet_size as u128) * (loss_pct as u128)) / 100) as u64;
    CombatResult { victory, ships_lost }
}

/// What one expedition launch did, before it is applied to the planet.
#[derive(Clone, Copy, Debug, PartialEq, Eq, Structural)]
pub struct ExpeditionOutcome {
    pub winner: ExpeditionWinner,
    /// Whether a hostile encounter was drawn at all.
    pub encounter: bool,
    /// The drawn opposing strength; zero on a quiet scan.
    pub pirate_strength: u64,
    pub loot_metal: u64,
    pub hunters_lost: u64,
    pub cruisers_lost: u64,
}

/// Metal found by a quiet scan: a fixed deposit.
pub open spec fn safe_scan_loot() -> int {
    50000
}

/// Loot of a won encounter: a base amount scaled by the speed factor over a
/// reference speed of 100.
pub open spec fn victory_loot_spec(speed: int) -> int {
    min_spec(50 * speed, cap())
}

/// The outcome of an expedition as a function of the planet's forces and the
/// three rolls. A quiet scan finds a fixed deposit and loses nothing; a won
/// encounter loots scaled metal and loses a drawn share of the hunters; a
/// lost encounter loots nothing, and half the hunters and three tenths of
/// the cruisers are destroyed.
pub open spec fn resolve_expedition_spec(
    hunters: int,
    cruisers: int,
    laser_level: int,
    speed: int,
    encounter: bool,
    pirate_strength: int,
    loss_pct: int,
) -> ExpeditionOutcome {
    if !encounter {
        ExpeditionOutcome {
            winner: ExpeditionWinner::Player,
            encounter: false,
            pirate_strength: 0,
            loot_metal: safe_scan_loot() as u64,
            hunters_lost: 0,
            cruisers_lost: 0,
        }
    } else {
        let fleet_size = sat_add_spec(hunters, cruisers);
        if pve_victory_spec(fleet_size, laser_level, pirate_strength) {
            ExpeditionOutcome {
                winner: ExpeditionWinner::Player,
                encounter: true,
                pirate_strength: pirate_strength as u64,
                loot_metal: victory_loot_spec(speed) as u64,
                hunters_lost: min_spec(pve_ships_lost_spec(fleet_size, loss_pct), hunters) as u64,
                cruisers_lost: 0,
            }
        } else {
            ExpeditionOutcome {
                winner: ExpeditionWinner::Pirates,
                encounter: true,
                pirate_strength: pirate_strength as u64,
                loot_metal: 0,
                hunters_lost: (hunters / 2) as u64,
                cruisers_lost: (cruisers * 3 / 10) as u64,
            }
        }
    }
}

/// Resolves an expedition for given rolls: the deterministic core of
/// `launch_expedition`, exposed so outcomes can be examined roll by roll.
pub fn resolve_expedition(
    hunters: u64,
    cruisers: u64,
    laser_level: u64,
    speed: u64,
    encounter: bool,
    pirate_strength: u64,
    loss_pct: u64,
) -> (r: ExpeditionOutcome)
    requires
        speed >= 1,
        loss_pct <= 100,
    ensures
        r == resolve_expedition_spec(
            hunters as int,
            cruisers as int,
            laser_level as int,
            speed as int,
            encounter,
            pirate_strength as int,
            loss_pct as int,
        ),
        r.hunters_lost <= hunters,
        r.cruisers_lost <= cruisers,
{
    if !encounter {
        return ExpeditionOutcome {
            winner: ExpeditionWinner::Player,
            encounter: false,
            pirate_strength: 0,
            loot_metal: 50000,
            hunters_lost: 0,
            cruisers_lost: 0,
        };
    }
    let fleet_size: u64 = sat_add(hunters, cruisers);
    let combat = simulate_combat(fleet_size, laser_level, pirate_strength, loss_pct);
    if combat.victory {
        let loot: u64 = if speed <= u64::MAX / 50 {
            50 * speed
        } else {
            u64::MAX
        };
        let hunters_lost: u64 = if combat.ships_lost > hunters {
            hunters
        } else {
            combat.ships_lost
        };
        ExpeditionOutcome {
            winner: ExpeditionWinner::Player,
            encounter: true,
            pirate_strength,
            loot_metal: loot,
            hunters_lost,
            cruisers_lost: 0,
        }
    } else {
        proof {
            lemma_div_le((cruisers as int) * 3, 10, cruisers as int);
        }
        ExpeditionOutcome {
            winner: ExpeditionWinner::Pirates,
            encounter: true,
            pirate_strength,
            loot_metal: 0,
            hunters_lost: hunters / 2,
            cruisers_lost: (((cruisers as u128) * 3) / 10) as u64,
        }
    }
}

/// Seconds before another expedition may launch: a base cooldown divided by
/// the speed factor, at least one second.
pub open spec fn expedition_cooldown_spec(speed: int) -> int {
    max_spec(1, 600int / speed)
}

/// The planet after an expedition outcome is applied: loot credited, losses
/// struck off, and the re-launch lock set to `now` plus the cooldown.
pub open spec fn expedition_applied(q: Planet, out: ExpeditionOutcome, speed: int, now: int) -> Planet {
    Planet {
        resources: ResourcePools {
            metal: sat_add_spec(q.resources.metal as int, out.loot_metal as int) as u64,
            ..q.resources
        },
        fleet: FleetCounts {
            light_hunters: (q.fleet.light_hunters - out.hunters_lost) as u64,
            cruisers: (q.fleet.cruisers - out.cruisers_lost) as u64,
            ..q.fleet
        },
        expedition_end: Some(sat_add_spec(now, expedition_cooldown_spec(speed)) as u64),
        ..q
    }
}

/// The outcome is the resolution of some admissible rolls for the planet `q`
/// it was drawn for: an encounter chance, a pirate strength from [10, 100)
/// and a loss share from [0, 20).
pub open spec fn expedition_rolls_admissible(q: Planet, out: ExpeditionOutcome, speed: int) -> bool {
    exists|encounter: bool, pirate: int, loss_pct: int|
        {
            &&& 10 <= pirate < 100
            &&& 0 <= loss_pct < 20
            &&& out == #[trigger] resolve_expedition_spec(
                q.fleet.light_hunters as int,
                q.fleet.cruisers as int,
                q.tech.laser as int,
                speed,
                encounter,
                pirate,
                loss_pct,
            )
        }
}

/// The expedition's combat-log record.
#[derive(Clone, Debug, PartialEq)]
pub struct ExpeditionReport {
    pub outcome: ExpeditionOutcome,
    pub log: CombatLogEntry,
}

/// Reconcile-then-act transaction for an expedition. Fails with `Conflict`
/// while a cooldown is still running; otherwise draws the encounter, applies
/// loot and losses immediately, arms the cooldown, and returns the outcome
/// with its combat-log record. Whatever the generator returned, the applied
/// outcome is the deterministic resolution of admissible rolls.
pub fn launch_expedition(p: &mut Planet, speed: u64, now: u64) -> (r: Result<ExpeditionReport, GameError>)
    requires
        speed >= 1,
    ensures
        ({
            let q = reconciled(*old(p), speed as int, now as int);
            &&& (q.expedition_end is Some ==> {
                &&& r is Err
                &&& r->Err_0 == GameError::Conflict
                &&& *final(p) == q
            })
            &&& (q.expedition_end is None ==> {
                &&& r is Ok
                &&& expedition_rolls_admissible(q, r->Ok_0.outcome, speed as int)
                &&& *final(p) == expedition_applied(q, r->Ok_0.outcome, speed as int, now as int)
                &&& r->Ok_0.log.planet_id == q.id
                &&& r->Ok_0.log.mission is Expedition
                &&& (r->Ok_0.log.result is Victory <==> r->Ok_0.outcome.winner is Player)
                &&& r->Ok_0.log.loot_metal as int
                    == min_spec(r->Ok_0.outcome.loot_metal as int, i64::MAX as int)
                &&& r->Ok_0.log.loot_crystal == 0
                &&& r->Ok_0.log.ships_lost as int
                    == r->Ok_0.outcome.hunters_lost + r->Ok_0.outcome.cruisers_lost
                &&& r->Ok_0.log.timestamp == now
            })
        }),
{
    reconcile(p, speed, now);
    if p.expedition_end.is_some() {
        return Err(GameError::Conflict);
    }

    let encounter: bool = roll_in(0, 100) < 30;
    let pirate_strength: u64 = roll_in(10, 100);
    let loss_pct: u64 = roll_in(0, 20);

    let out = resolve_expedition(
        p.fleet.light_hunters,
        p.fleet.cruisers,
        p.tech.laser,
        speed,
        encounter,
        pirate_strength,
        loss_pct,
    );
    let ghost q = *p;
    assert(expedition_rolls_admissible(q, out, speed as int)) by {
        assert(out == resolve_expedition_spec(
            q.fleet.light_hunters as int,
            q.fleet.cruisers as int,
            q.tech.laser as int,
            speed as int,
            encounter,
            pirate_strength as int,
            loss_pct as int,
        ));
    };

    p.resources.metal = sat_add(p.resources.metal, out.loot_metal);
    p.fleet.light_hunters = p.fleet.light_hunters - out.hunters_lost;
    p.fleet.cruisers = p.fleet.cruisers - out.cruisers_lost;
    let cooldown: u64 = {
        let raw: u64 = 600 / speed;
        if raw < 1 {
            1
        } else {
            raw
        }
    };
    p.expedition_end = Some(sat_add(now, cooldown));

    let loot_logged: u64 = if out.loot_metal > i64::MAX as u64 {
        i64::MAX as u64
    } else {
        out.loot_metal
    };
    let log = CombatLogEntry {
        planet_id: p.id,
        opponent_name: deep_space_label(),
        mission: MissionKind::Expedition,
        result: if matches!(out.winner, ExpeditionWinner::Player) {
            BattleResult::Victory
        } else {
            BattleResult::Defeat
        },
        loot_metal: loot_logged as i64,
        loot_crystal: 0,
        ships_lost: sat_add(out.hunters_lost, out.cruisers_lost),
        timestamp: now,
    };
    proof {
        assert(out.hunters_lost as int + out.cruisers_lost as int <= cap());
    }
    Ok(ExpeditionReport { outcome: out, log })
}

/// The opponent name an expedition record carries: expeditions have no named
/// opponent.
fn deep_space_label() -> (r: String)
    ensures
        r@ == "deep space"@,
{
    "deep space".to_owned()
}

} // verus!

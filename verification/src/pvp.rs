//! The player-versus-player siege resolver and the attack transaction.
//!
//! The resolver is fully deterministic: a single power comparison decides the
//! winner (ties favor the defender), proportional-loss arithmetic decides the
//! casualties, and half of the defender's current pools become loot when the
//! attacker wins. Destroyed static defenses leave debris at the defender's
//! planet, harvestable later by any recycler fleet.

use vstd::prelude::*;
use vstd::arithmetic::mul::{lemma_mul_inequality, lemma_mul_is_commutative, lemma_mul_nonnegative};
use crate::economy::Cost;
use crate::errors::GameError;
use crate::num::{cap, clamp_u64, lemma_div_le, min_spec, sat_add, sat_add_spec};
use crate::planet::{
    BattleResult, BattleSummary, CombatLogEntry, DebrisField, FleetCounts, MissionKind, Planet,
    ResourcePools, Winner,
};
use crate::reconcile::{reconcile, reconciled};

verus! {

/// Firepower of the attacker's committed fleet.
pub open spec fn attack_power_spec(hunters: int, cruisers: int) -> int {
    hunters * 10 + cruisers * 50
}

/// Firepower of everything standing on the defender's planet.
pub open spec fn defense_power_spec(hunters: int, cruisers: int, lasers: int, missiles: int, plasmas: int) -> int {
    hunters * 10 + cruisers * 50 + lasers * 20 + missiles * 20 + plasmas * 200
}

/// Hunters the attacker loses: one tenth of the committed hunters plus four
/// tenths scaled by the resistance ratio on a win, eight tenths on a defeat.
pub open spec fn pvp_attacker_losses_spec(hunters: int, ap: int, dp: int) -> int {
    if ap > dp {
        hunters * (ap + 4 * dp) / (10 * ap)
    } else {
        hunters * 8 / 10
    }
}

/// Hunters the defender loses: eight tenths when overrun, one tenth when the
/// defense holds.
pub open spec fn pvp_defender_hunter_losses_spec(hunters: int, attacker_won: bool) -> int {
    if attacker_won {
        hunters * 8 / 10
    } else {
        hunters / 10
    }
}

/// Units of one static-defense type destroyed: six tenths when the attacker
/// wins, one tenth otherwise.
pub open spec fn pvp_defense_destroyed_spec(count: int, attacker_won: bool) -> int {
    if attacker_won {
        count * 6 / 10
    } else {
        count / 10
    }
}

/// Loot on an attacker win: half of each of the defender's current pools;
/// nothing otherwise.
pub open spec fn pvp_loot_spec(res: ResourcePools, attacker_won: bool) -> Cost {
    if attacker_won {
        Cost {
            metal: (res.metal as int / 2) as u64,
            crystal: (res.crystal as int / 2) as u64,
            deuterium: (res.deuterium as int / 2) as u64,
        }
    } else {
        Cost { metal: 0, crystal: 0, deuterium: 0 }
    }
}

/// Metal mass of destroyed defenses turned into debris on an attacker win.
pub open spec fn pvp_debris_metal_spec(missiles_destroyed: int, plasmas_destroyed: int, attacker_won: bool) -> int {
    if attacker_won {
        min_spec(missiles_destroyed * 2000 + plasmas_destroyed * 50000, cap())
    } else {
        0
    }
}

/// Crystal mass of destroyed defenses turned into debris on an attacker win.
pub open spec fn pvp_debris_crystal_spec(plasmas_destroyed: int, attacker_won: bool) -> int {
    if attacker_won {
        min_spec(plasmas_destroyed * 50000, cap())
    } else {
        0
    }
}

/// The outcome of one siege, as reported to both participants and applied to
/// both snapshots.
#[derive(Clone, Copy, Debug, PartialEq, Eq, Structural)]
pub struct PvpReport {
    pub winner: Winner,
    pub attack_power: u64,
    /// Defense power, saturating at the 64-bit cap (display only).
    pub defense_power: u64,
    pub loot: Cost,
    /// Committed hunters the attacker lost.
    pub attacker_losses: u64,
    pub defender_hunter_losses: u64,
    pub missiles_destroyed: u64,
    pub plasmas_destroyed: u64,
    /// Everything the defender lost: hunters and both defense types.
    pub defender_losses: u64,
    pub debris_metal: u64,
    pub debris_crystal: u64,
}

/// The full siege outcome as a function of the committed fleet and the
/// defender's standing forces and pools.
pub open spec fn pvp_report_spec(
    att_hunters: int,
    att_cruisers: int,
    def_hunters: int,
    def_cruisers: int,
    def_lasers: int,
    def_missiles: int,
    def_plasmas: int,
    def_resources: ResourcePools,
) -> PvpReport {
    let ap = attack_power_spec(att_hunters, att_cruisers);
    let dp = defense_power_spec(def_hunters, def_cruisers, def_lasers, def_missiles, def_plasmas);
    let won = ap > dp;
    let dhl = pvp_defender_hunter_losses_spec(def_hunters, won);
    let md = pvp_defense_destroyed_spec(def_missiles, won);
    let pd = pvp_defense_destroyed_spec(def_plasmas, won);
    PvpReport {
        winner: if won {
            Winner::Attacker
        } else {
            Winner::Defender
        },
        attack_power: ap as u64,
        defense_power: min_spec(dp, cap()) as u64,
        loot: pvp_loot_spec(def_resources, won),
        attacker_losses: pvp_attacker_losses_spec(att_hunters, ap, dp) as u64,
        defender_hunter_losses: dhl as u64,
        missiles_destroyed: md as u64,
        plasmas_destroyed: pd as u64,
        defender_losses: sat_add_spec(sat_add_spec(dhl, md), pd) as u64,
        debris_metal: pvp_debris_metal_spec(md, pd, won) as u64,
        debris_crystal: pvp_debris_crystal_spec(pd, won) as u64,
    }
}

/// Resolves one siege. The winner is the attacker exactly when its attack
/// power strictly exceeds the defense power: ties go to the defender. Every
/// loss is bounded by the count it is taken from, and loot by the pool it is
/// taken from.
pub fn resolve_pvp(
    att_hunters: u32,
    att_cruisers: u32,
    def_hunters: u64,
    def_cruisers: u64,
    def_lasers: u64,
    def_missiles: u64,
    def_plasmas: u64,
    def_resources: &ResourcePools,
) -> (r: PvpReport)
    ensures
        r == pvp_report_spec(
            att_hunters as int,
            att_cruisers as int,
            def_hunters as int,
            def_cruisers as int,
            def_lasers as int,
            def_missiles as int,
            def_plasmas as int,
            *def_resources,
        ),
        r.winner is Attacker <==> attack_power_spec(att_hunters as int, att_cruisers as int)
            > defense_power_spec(def_hunters as int, def_cruisers as int, def_lasers as int, def_missiles as int, def_plasmas as int),
        r.attacker_losses <= att_hunters,
        r.defender_hunter_losses <= def_hunters,
        r.missiles_destroyed <= def_missiles,
        r.plasmas_destroyed <= def_plasmas,
        r.loot.metal <= def_resources.metal,
        r.loot.crystal <= def_resources.crystal,
        r.loot.deuterium <= def_resources.deuterium,
{
    let ap: u64 = (att_hunters as u64) * 10 + (att_cruisers as u64) * 50;
    let dp_wide: u128 = (def_hunters as u128) * 10 + (def_cruisers as u128) * 50
        + (def_lasers as u128) * 20 + (def_missiles as u128) * 20 + (def_plasmas as u128) * 200;
    let won: bool = (ap as u128) > dp_wide;

    let ghost api: int = attack_power_spec(att_hunters as int, att_cruisers as int);
    let ghost dpi: int = defense_power_spec(
        def_hunters as int,
        def_cruisers as int,
        def_lasers as int,
        def_missiles as int,
        def_plasmas as int,
    );

    let attacker_losses: u64 = if won {
        let rest: u128 = (ap as u128) + 4 * dp_wide;
        assert(rest as int <= 1200 * (u64::MAX as int));
        proof {
            lemma_mul_nonnegative(att_hunters as int, rest as int);
            assert((att_hunters as int) * (rest as int) <= u128::MAX as int) by (nonlinear_arith)
                requires
                    0 <= att_hunters as int <= u32::MAX as int,
                    0 <= rest as int <= 1200 * (u64::MAX as int),
            ;
            lemma_mul_inequality(api + 4 * dpi, 10 * api, att_hunters as int);
            lemma_mul_is_commutative(att_hunters as int, api + 4 * dpi);
            lemma_mul_is_commutative(att_hunters as int, 10 * api);
            lemma_div_le((att_hunters as int) * (api + 4 * dpi), 10 * api, att_hunters as int);
        }
        let num: u128 = (att_hunters as u128) * rest;
        let den: u128 = 10 * (ap as u128);
        (num / den) as u64
    } else {
        (att_hunters as u64) * 8 / 10
    };
    proof {
        if !won {
            lemma_div_le((att_hunters as int) * 8, 10, att_hunters as int);
        }
    }

    let dhl: u64 = if won {
        proof {
            lemma_div_le((def_hunters as int) * 8, 10, def_hunters as int);
        }
        (((def_hunters as u128) * 8) / 10) as u64
    } else {
        proof {
            lemma_div_le(def_hunters as int, 10, def_hunters as int);
        }
        def_hunters / 10
    };

    let md: u64 = if won {
        proof {
            lemma_div_le((def_missiles as int) * 6, 10, def_missiles as int);
        }
        (((def_missiles as u128) * 6) / 10) as u64
    } else {
        def_missiles / 10
    };

    let pd: u64 = if won {
        proof {
            lemma_div_le((def_plasmas as int) * 6, 10, def_plasmas as int);
        }
        (((def_plasmas as u128) * 6) / 10) as u64
    } else {
        def_plasmas / 10
    };

    let loot: Cost = if won {
        Cost {
            metal: def_resources.metal / 2,
            crystal: def_resources.crystal / 2,
            deuterium: def_resources.deuterium / 2,
        }
    } else {
        Cost { metal: 0, crystal: 0, deuterium: 0 }
    };

    let debris_metal: u64 = if won {
        clamp_u64((md as u128) * 2000 + (pd as u128) * 50000)
    } else {
        0
    };
    let debris_crystal: u64 = if won {
        clamp_u64((pd as u128) * 50000)
    } else {
        0
    };

    PvpReport {
        winner: if won {
            Winner::Attacker
        } else {
            Winner::Defender
        },
        attack_power: ap,
        defense_power: clamp_u64(dp_wide),
        loot,
        attacker_losses,
        defender_hunter_losses: dhl,
        missiles_destroyed: md,
        plasmas_destroyed: pd,
        defender_losses: sat_add(sat_add(dhl, md), pd),
        debris_metal,
        debris_crystal,
    }
}

/// Tie-break law: when attack power and defense power are exactly equal, the
/// battle goes to the defender, nothing is looted and no debris is created.
pub proof fn lemma_pvp_tie_favors_defender(
    att_hunters: int,
    att_cruisers: int,
    def_hunters: int,
    def_cruisers: int,
    def_lasers: int,
    def_missiles: int,
    def_plasmas: int,
    def_resources: ResourcePools,
)
    requires
        attack_power_spec(att_hunters, att_cruisers) == defense_power_spec(
            def_hunters,
            def_cruisers,
            def_lasers,
            def_missiles,
            def_plasmas,
        ),
    ensures
        ({
            let r = pvp_report_spec(
                att_hunters,
                att_cruisers,
                def_hunters,
                def_cruisers,
                def_lasers,
                def_missiles,
                def_plasmas,
                def_resources,
            );
            &&& r.winner is Defender
            &&& r.loot == (Cost { metal: 0u64, crystal: 0u64, deuterium: 0u64 })
            &&& r.debris_metal == 0
            &&& r.debris_crystal == 0
        }),
{
}

/// The attacker's snapshot after the battle: loot credited, lost hunters
/// struck off. Committed cruisers return home whole.
pub open spec fn attack_applied_attacker(qa: Planet, report: PvpReport) -> Planet {
    Planet {
        resources: ResourcePools {
            metal: sat_add_spec(qa.resources.metal as int, report.loot.metal as int) as u64,
            crystal: sat_add_spec(qa.resources.crystal as int, report.loot.crystal as int) as u64,
            deuterium: sat_add_spec(qa.resources.deuterium as int, report.loot.deuterium as int) as u64,
        },
        fleet: FleetCounts {
            light_hunters: (qa.fleet.light_hunters - report.attacker_losses) as u64,
            ..qa.fleet
        },
        ..qa
    }
}

/// The defender's snapshot after the battle: loot debited, casualties struck
/// off, debris added, and the unread report overwritten with the summary.
pub open spec fn attack_applied_defender(qd: Planet, report: PvpReport) -> Planet {
    Planet {
        resources: ResourcePools {
            metal: (qd.resources.metal - report.loot.metal) as u64,
            crystal: (qd.resources.crystal - report.loot.crystal) as u64,
            deuterium: (qd.resources.deuterium - report.loot.deuterium) as u64,
        },
        fleet: FleetCounts {
            light_hunters: (qd.fleet.light_hunters - report.defender_hunter_losses) as u64,
            ..qd.fleet
        },
        defenses: crate::planet::DefenseCounts {
            missile_launchers: (qd.defenses.missile_launchers - report.missiles_destroyed) as u64,
            plasma_turrets: (qd.defenses.plasma_turrets - report.plasmas_destroyed) as u64,
        },
        debris: DebrisField {
            metal: sat_add_spec(qd.debris.metal as int, report.debris_metal as int) as u64,
            crystal: sat_add_spec(qd.debris.crystal as int, report.debris_crystal as int) as u64,
        },
        unread_report: Some(
            BattleSummary {
                winner: report.winner,
                loot_metal: report.loot.metal,
                loot_crystal: report.loot.crystal,
                hunters_lost: report.defender_hunter_losses,
                defenses_lost: sat_add_spec(report.missiles_destroyed as int, report.plasmas_destroyed as int) as u64,
            },
        ),
        ..qd
    }
}

/// The attacker's combat-log record of the battle.
pub open spec fn attacker_log_spec(qa: Planet, qd: Planet, report: PvpReport, now: int) -> CombatLogEntry {
    CombatLogEntry {
        planet_id: qa.id,
        opponent_name: qd.name,
        mission: MissionKind::Attack,
        result: if report.winner is Attacker {
            BattleResult::Victory
        } else {
            BattleResult::Defeat
        },
        loot_metal: report.loot.metal as i64,
        loot_crystal: report.loot.crystal as i64,
        ships_lost: report.attacker_losses,
        timestamp: now as u64,
    }
}

/// The defender's combat-log record: the same battle with loot negated.
pub open spec fn defender_log_spec(qa: Planet, qd: Planet, report: PvpReport, now: int) -> CombatLogEntry {
    CombatLogEntry {
        planet_id: qd.id,
        opponent_name: qa.name,
        mission: MissionKind::Defense,
        result: if report.winner is Defender {
            BattleResult::Victory
        } else {
            BattleResult::Defeat
        },
        loot_metal: -(report.loot.metal as int) as i64,
        loot_crystal: -(report.loot.crystal as int) as i64,
        ships_lost: report.defender_losses,
        timestamp: now as u64,
    }
}

/// The battle outcome handed back to the caller: the report plus one
/// combat-log record per participant, for the store to append.
#[derive(Clone, Debug, PartialEq)]
pub struct AttackOutcome {
    pub report: PvpReport,
    pub attacker_log: CombatLogEntry,
    pub defender_log: CombatLogEntry,
}

/// Reconcile-then-act transaction for a siege. Both snapshots are first
/// brought up to `now`; the attack is validated against the reconciled
/// attacker (`qa` below) and resolved against the reconciled defender (`qd`).
/// Self-targeting and an empty committed fleet fail with `InvalidTarget`,
/// overcommitting fails with `InsufficientFleet`; every failure leaves both
/// snapshots merely reconciled.
pub fn attack(
    attacker: &mut Planet,
    defender: &mut Planet,
    hunters: u32,
    cruisers: u32,
    speed: u64,
    now: u64,
) -> (r: Result<AttackOutcome, GameError>)
    requires
        speed >= 1,
    ensures
        ({
            let qa = reconciled(*old(attacker), speed as int, now as int);
            let qd = reconciled(*old(defender), speed as int, now as int);
            &&& (old(attacker).id == old(defender).id ==> {
                &&& r is Err
                &&& r->Err_0 == GameError::InvalidTarget
                &&& *final(attacker) == qa
                &&& *final(defender) == qd
            })
            &&& (old(attacker).id != old(defender).id
                && (hunters as int > qa.fleet.light_hunters as int
                    || cruisers as int > qa.fleet.cruisers as int) ==> {
                &&& r is Err
                &&& r->Err_0 == GameError::InsufficientFleet
                &&& *final(attacker) == qa
                &&& *final(defender) == qd
            })
            &&& (old(attacker).id != old(defender).id
                && hunters as int <= qa.fleet.light_hunters as int
                && cruisers as int <= qa.fleet.cruisers as int
                && hunters == 0 && cruisers == 0 ==> {
                &&& r is Err
                &&& r->Err_0 == GameError::InvalidTarget
                &&& *final(attacker) == qa
                &&& *final(defender) == qd
            })
            &&& (old(attacker).id != old(defender).id
                && hunters as int <= qa.fleet.light_hunters as int
                && cruisers as int <= qa.fleet.cruisers as int
                && !(hunters == 0 && cruisers == 0) ==> {
                let report = pvp_report_spec(
                    hunters as int,
                    cruisers as int,
                    qd.fleet.light_hunters as int,
                    qd.fleet.cruisers as int,
                    qd.tech.laser as int,
                    qd.defenses.missile_launchers as int,
                    qd.defenses.plasma_turrets as int,
                    qd.resources,
                );
                &&& r is Ok
                &&& r->Ok_0.report == report
                &&& r->Ok_0.attacker_log == attacker_log_spec(qa, qd, report, now as int)
                &&& r->Ok_0.defender_log == defender_log_spec(qa, qd, report, now as int)
                &&& *final(attacker) == attack_applied_attacker(qa, report)
                &&& *final(defender) == attack_applied_defender(qd, report)
            })
        }),
{
    reconcile(attacker, speed, now);
    reconcile(defender, speed, now);

    if attacker.id == defender.id {
        return Err(GameError::InvalidTarget);
    }
    if (hunters as u64) > attacker.fleet.light_hunters || (cruisers as u64) > attacker.fleet.cruisers {
        return Err(GameError::InsufficientFleet);
    }
    if hunters == 0 && cruisers == 0 {
        return Err(GameError::InvalidTarget);
    }

    let report = resolve_pvp(
        hunters,
        cruisers,
        defender.fleet.light_hunters,
        defender.fleet.cruisers,
        defender.tech.laser,
        defender.defenses.missile_launchers,
        defender.defenses.plasma_turrets,
        &defender.resources,
    );

    // defender: pools debited, casualties struck off, debris and report set
    defender.resources.metal = defender.resources.metal - report.loot.metal;
    defender.resources.crystal = defender.resources.crystal - report.loot.crystal;
    defender.resources.deuterium = defender.resources.deuterium - report.loot.deuterium;
    defender.fleet.light_hunters = defender.fleet.light_hunters - report.defender_hunter_losses;
    defender.defenses.missile_launchers = defender.defenses.missile_launchers - report.missiles_destroyed;
    defender.defenses.plasma_turrets = defender.defenses.plasma_turrets - report.plasmas_destroyed;
    defender.debris.metal = sat_add(defender.debris.metal, report.debris_metal);
    defender.debris.crystal = sat_add(defender.debris.crystal, report.debris_crystal);
    defender.unread_report = Some(
        BattleSummary {
            winner: report.winner,
            loot_metal: report.loot.metal,
            loot_crystal: report.loot.crystal,
            hunters_lost: report.defender_hunter_losses,
            defenses_lost: sat_add(report.missiles_destroyed, report.plasmas_destroyed),
        },
    );

    // attacker: loot credited, lost hunters struck off
    attacker.resources.metal = sat_add(attacker.resources.metal, report.loot.metal);
    attacker.resources.crystal = sat_add(attacker.resources.crystal, report.loot.crystal);
    attacker.resources.deuterium = sat_add(attacker.resources.deuterium, report.loot.deuterium);
    attacker.fleet.light_hunters = attacker.fleet.light_hunters - report.attacker_losses;

    proof {
        assert(report.loot.metal <= i64::MAX as u64);
        assert(report.loot.crystal <= i64::MAX as u64);
    }
    let attacker_log = CombatLogEntry {
        planet_id: attacker.id,
        opponent_name: clone_name(&defender.name),
        mission: MissionKind::Attack,
        result: if matches!(report.winner, Winner::Attacker) {
            BattleResult::Victory
        } else {
            BattleResult::Defeat
        },
        loot_metal: report.loot.metal as i64,
        loot_crystal: report.loot.crystal as i64,
        ships_lost: report.attacker_losses,
        timestamp: now,
    };
    let defender_log = CombatLogEntry {
        planet_id: defender.id,
        opponent_name: clone_name(&attacker.name),
        mission: MissionKind::Defense,
        result: if matches!(report.winner, Winner::Defender) {
            BattleResult::Victory
        } else {
            BattleResult::Defeat
        },
        loot_metal: -(report.loot.metal as i64),
        loot_crystal: -(report.loot.crystal as i64),
        ships_lost: report.defender_losses,
        timestamp: now,
    };

    Ok(AttackOutcome { report, attacker_log, defender_log })
}

/// A copy of a planet's display name, for a combat-log record.
fn clone_name(name: &String) -> (r: String)
    ensures
        r == *name,
{
    name.clone()
}

} // verus!

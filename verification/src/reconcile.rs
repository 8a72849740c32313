//! Lazy time reconciliation: the pure transformation every core entry point
//! applies to a planet snapshot before acting on it.
//!
//! There is no background clock. Resource accrual, queue completions and the
//! expedition cooldown are caught up exactly once, at the next access: a job
//! whose completion time has passed is applied and its slot freed; the
//! last-reconciled timestamp never decreases.

use vstd::prelude::*;
use crate::accrual::{accrue_spec, calculate_resources, elapsed_since};
use crate::economy::{BuildKind, ResourceType, ShipKind};
use crate::num::{max_spec, sat_add, sat_add_spec, sat_inc};
use crate::planet::{Planet, ResourcePools, MineLevels, TechLevels, FleetCounts, DefenseCounts};

verus! {

/// The planet with its three resource pools brought up to `now` and its
/// last-reconciled timestamp advanced.
pub open spec fn accrued_planet(p: Planet, speed: int, now: int) -> Planet {
    let e = elapsed_since(p.last_update as int, now);
    Planet {
        resources: ResourcePools {
            metal: accrue_spec(p.resources.metal as int, ResourceType::Metal, p.mines.metal as int, speed, e) as u64,
            crystal: accrue_spec(p.resources.crystal as int, ResourceType::Crystal, p.mines.crystal as int, speed, e) as u64,
            deuterium: accrue_spec(p.resources.deuterium as int, ResourceType::Deuterium, p.mines.deuterium as int, speed, e) as u64,
        },
        last_update: max_spec(p.last_update as int, now) as u64,
        ..p
    }
}

/// The planet with the level the finished structure or technology job was
/// raising incremented by one.
pub open spec fn bumped_level(p: Planet, kind: BuildKind) -> Planet {
    match kind {
        BuildKind::MetalMine => Planet {
            mines: MineLevels { metal: sat_add_spec(p.mines.metal as int, 1) as u64, ..p.mines },
            ..p
        },
        BuildKind::CrystalMine => Planet {
            mines: MineLevels { crystal: sat_add_spec(p.mines.crystal as int, 1) as u64, ..p.mines },
            ..p
        },
        BuildKind::DeuteriumMine => Planet {
            mines: MineLevels { deuterium: sat_add_spec(p.mines.deuterium as int, 1) as u64, ..p.mines },
            ..p
        },
        BuildKind::EnergyTech => Planet {
            tech: TechLevels { energy: sat_add_spec(p.tech.energy as int, 1) as u64, ..p.tech },
            ..p
        },
        BuildKind::Research => Planet {
            tech: TechLevels { research_lab: sat_add_spec(p.tech.research_lab as int, 1) as u64, ..p.tech },
            ..p
        },
        BuildKind::Laser => Planet {
            tech: TechLevels { laser: sat_add_spec(p.tech.laser as int, 1) as u64, ..p.tech },
            ..p
        },
        BuildKind::Espionage => Planet {
            tech: TechLevels { espionage: sat_add_spec(p.tech.espionage as int, 1) as u64, ..p.tech },
            ..p
        },
    }
}

/// The planet after the structure/tech queue's completion check: a job whose
/// completion time has passed is applied and the slot freed, exactly once.
pub open spec fn construction_completed(p: Planet, now: int) -> Planet {
    match p.construction {
        Some(job) => if now >= job.finish as int {
            Planet { construction: None, ..bumped_level(p, job.kind) }
        } else {
            p
        },
        None => p,
    }
}

/// The planet with `quantity` finished units of `kind` put into service.
pub open spec fn added_units(p: Planet, kind: ShipKind, quantity: int) -> Planet {
    match kind {
        ShipKind::LightHunter => Planet {
            fleet: FleetCounts { light_hunters: sat_add_spec(p.fleet.light_hunters as int, quantity) as u64, ..p.fleet },
            ..p
        },
        ShipKind::Cruiser => Planet {
            fleet: FleetCounts { cruisers: sat_add_spec(p.fleet.cruisers as int, quantity) as u64, ..p.fleet },
            ..p
        },
        ShipKind::Recycler => Planet {
            fleet: FleetCounts { recyclers: sat_add_spec(p.fleet.recyclers as int, quantity) as u64, ..p.fleet },
            ..p
        },
        ShipKind::SpyProbe => Planet {
            fleet: FleetCounts { spy_probes: sat_add_spec(p.fleet.spy_probes as int, quantity) as u64, ..p.fleet },
            ..p
        },
        ShipKind::MissileLauncher => Planet {
            defenses: DefenseCounts { missile_launchers: sat_add_spec(p.defenses.missile_launchers as int, quantity) as u64, ..p.defenses },
            ..p
        },
        ShipKind::PlasmaTurret => Planet {
            defenses: DefenseCounts { plasma_turrets: sat_add_spec(p.defenses.plasma_turrets as int, quantity) as u64, ..p.defenses },
            ..p
        },
    }
}

/// The planet after the shipyard queue's completion check.
pub open spec fn shipyard_completed(p: Planet, now: int) -> Planet {
    match p.shipyard {
        Some(job) => if now >= job.finish as int {
            Planet { shipyard: None, ..added_units(p, job.kind, job.quantity as int) }
        } else {
            p
        },
        None => p,
    }
}

/// The planet with an elapsed expedition cooldown cleared.
pub open spec fn expedition_cleared(p: Planet, now: int) -> Planet {
    match p.expedition_end {
        Some(end) => if now >= end as int {
            Planet { expedition_end: None, ..p }
        } else {
            p
        },
        None => p,
    }
}

/// The planet snapshot brought fully up to `now`: resources accrued, both
/// queues' completion checks applied, an elapsed expedition cooldown cleared.
pub open spec fn reconciled(p: Planet, speed: int, now: int) -> Planet {
    expedition_cleared(
        shipyard_completed(construction_completed(accrued_planet(p, speed, now), now), now),
        now,
    )
}

/// After reconciliation both queue slots are free of any job due by `now`.
pub proof fn lemma_reconciled_queues_current(p: Planet, speed: int, now: int)
    ensures
        reconciled(p, speed, now).construction is Some
            ==> reconciled(p, speed, now).construction.unwrap().finish as int > now,
        reconciled(p, speed, now).shipyard is Some
            ==> reconciled(p, speed, now).shipyard.unwrap().finish as int > now,
        reconciled(p, speed, now).expedition_end is Some
            ==> reconciled(p, speed, now).expedition_end.unwrap() as int > now,
{
}

/// Brings a planet snapshot up to `now` in place. The last-reconciled
/// timestamp never decreases.
pub fn reconcile(p: &mut Planet, speed: u64, now: u64)
    requires
        speed >= 1,
    ensures
        *final(p) == reconciled(*old(p), speed as int, now as int),
        final(p).last_update >= old(p).last_update,
{
    let m = calculate_resources(ResourceType::Metal, p.mines.metal, p.resources.metal, p.last_update, now, speed);
    let c = calculate_resources(ResourceType::Crystal, p.mines.crystal, p.resources.crystal, p.last_update, now, speed);
    let d = calculate_resources(ResourceType::Deuterium, p.mines.deuterium, p.resources.deuterium, p.last_update, now, speed);
    p.resources.metal = m;
    p.resources.crystal = c;
    p.resources.deuterium = d;
    if now > p.last_update {
        p.last_update = now;
    }
    assert(*p == accrued_planet(*old(p), speed as int, now as int));

    let construction = p.construction;
    match construction {
        Some(job) => {
            if now >= job.finish {
                match job.kind {
                    BuildKind::MetalMine => {
                        p.mines.metal = sat_inc(p.mines.metal);
                    },
                    BuildKind::CrystalMine => {
                        p.mines.crystal = sat_inc(p.mines.crystal);
                    },
                    BuildKind::DeuteriumMine => {
                        p.mines.deuterium = sat_inc(p.mines.deuterium);
                    },
                    BuildKind::EnergyTech => {
                        p.tech.energy = sat_inc(p.tech.energy);
                    },
                    BuildKind::Research => {
                        p.tech.research_lab = sat_inc(p.tech.research_lab);
                    },
                    BuildKind::Laser => {
                        p.tech.laser = sat_inc(p.tech.laser);
                    },
                    BuildKind::Espionage => {
                        p.tech.espionage = sat_inc(p.tech.espionage);
                    },
                }
                p.construction = None;
            }
        },
        None => {},
    }
    assert(*p == construction_completed(accrued_planet(*old(p), speed as int, now as int), now as int));

    let shipyard = p.shipyard;
    match shipyard {
        Some(job) => {
            if now >= job.finish {
                let qty: u64 = job.quantity as u64;
                match job.kind {
                    ShipKind::LightHunter => {
                        p.fleet.light_hunters = sat_add(p.fleet.light_hunters, qty);
                    },
                    ShipKind::Cruiser => {
                        p.fleet.cruisers = sat_add(p.fleet.cruisers, qty);
                    },
                    ShipKind::Recycler => {
                        p.fleet.recyclers = sat_add(p.fleet.recyclers, qty);
                    },
                    ShipKind::SpyProbe => {
                        p.fleet.spy_probes = sat_add(p.fleet.spy_probes, qty);
                    },
                    ShipKind::MissileLauncher => {
                        p.defenses.missile_launchers = sat_add(p.defenses.missile_launchers, qty);
                    },
                    ShipKind::PlasmaTurret => {
                        p.defenses.plasma_turrets = sat_add(p.defenses.plasma_turrets, qty);
                    },
                }
                p.shipyard = None;
            }
        },
        None => {},
    }

    let expedition_end = p.expedition_end;
    match expedition_end {
        Some(end) => {
            if now >= end {
                p.expedition_end = None;
            }
        },
        None => {},
    }
}

} // verus!

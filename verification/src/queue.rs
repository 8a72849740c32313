//! The two single-slot build queues: structure/technology upgrades and
//! shipyard batches.
//!
//! Both are the same state machine: starting a job on an occupied slot fails
//! with `Conflict` and changes nothing; an unaffordable job fails with
//! `InsufficientResources` and changes nothing; otherwise the cost is
//! deducted immediately and the slot filled with the job's completion time.
//! Completion is applied by the reconciliation pass (`crate::reconcile`), not
//! here; no cancellation or refund exists.

use vstd::prelude::*;
use crate::economy::{
    get_build_time, get_upgrade_cost, get_ship_production_time, ship_unit_cost,
    build_time_spec, ship_time_spec, ship_cost_metal_spec, ship_cost_crystal_spec,
    upgrade_cost_metal_spec, upgrade_cost_crystal_spec, upgrade_cost_deuterium_spec,
    BuildKind, Cost, ShipKind,
};
use crate::errors::GameError;
use crate::num::{cap, min_spec, sat_add, sat_add_spec, sat_inc};
use crate::planet::{Planet, ResourcePools, StructureJob, ShipyardJob};
use crate::reconcile::{reconcile, reconciled};

verus! {

/// Whether every pool covers its component of the price.
pub open spec fn affordable(res: ResourcePools, cost: Cost) -> bool {
    &&& res.metal >= cost.metal
    &&& res.crystal >= cost.crystal
    &&& res.deuterium >= cost.deuterium
}

/// The pools after paying the price.
pub open spec fn deducted(res: ResourcePools, cost: Cost) -> ResourcePools {
    ResourcePools {
        metal: (res.metal - cost.metal) as u64,
        crystal: (res.crystal - cost.crystal) as u64,
        deuterium: (res.deuterium - cost.deuterium) as u64,
    }
}

/// The level the structure/tech queue would raise `kind` from.
pub open spec fn current_level(p: Planet, kind: BuildKind) -> int {
    match kind {
        BuildKind::MetalMine => p.mines.metal as int,
        BuildKind::CrystalMine => p.mines.crystal as int,
        BuildKind::DeuteriumMine => p.mines.deuterium as int,
        BuildKind::EnergyTech => p.tech.energy as int,
        BuildKind::Research => p.tech.research_lab as int,
        BuildKind::Laser => p.tech.laser as int,
        BuildKind::Espionage => p.tech.espionage as int,
    }
}

/// The price of raising `kind` to its next level on planet `p`.
pub open spec fn structure_cost(p: Planet, kind: BuildKind) -> Cost {
    let next = sat_add_spec(current_level(p, kind), 1);
    Cost {
        metal: min_spec(upgrade_cost_metal_spec(kind, next), cap()) as u64,
        crystal: min_spec(upgrade_cost_crystal_spec(kind, next), cap()) as u64,
        deuterium: min_spec(upgrade_cost_deuterium_spec(kind, next), cap()) as u64,
    }
}

/// The planet after a successful structure/tech `start`: price paid, slot
/// filled, completion time set.
pub open spec fn structure_started(p: Planet, kind: BuildKind, speed: int, now: int) -> Planet {
    let cost = structure_cost(p, kind);
    let duration = min_spec(build_time_spec(cost.metal as int, cost.crystal as int, speed), cap());
    Planet {
        resources: deducted(p.resources, cost),
        construction: Some(StructureJob { kind, finish: sat_add_spec(now, duration) as u64 }),
        ..p
    }
}

/// Starts a structure or technology upgrade on an already-reconciled
/// snapshot. A second `start` on an occupied slot always fails with
/// `Conflict` and leaves the planet, its resources included, unchanged.
pub fn start_upgrade(p: &mut Planet, kind: BuildKind, speed: u64, now: u64) -> (r: Result<(), GameError>)
    requires
        speed >= 1,
    ensures
        old(p).construction is Some ==> {
            &&& r == Err::<(), GameError>(GameError::Conflict)
            &&& *final(p) == *old(p)
        },
        old(p).construction is None && !affordable(old(p).resources, structure_cost(*old(p), kind)) ==> {
            &&& r == Err::<(), GameError>(GameError::InsufficientResources)
            &&& *final(p) == *old(p)
        },
        old(p).construction is None && affordable(old(p).resources, structure_cost(*old(p), kind)) ==> {
            &&& r == Ok::<(), GameError>(())
            &&& *final(p) == structure_started(*old(p), kind, speed as int, now as int)
        },
{
    if p.construction.is_some() {
        return Err(GameError::Conflict);
    }
    let level: u64 = match kind {
        BuildKind::MetalMine => p.mines.metal,
        BuildKind::CrystalMine => p.mines.crystal,
        BuildKind::DeuteriumMine => p.mines.deuterium,
        BuildKind::EnergyTech => p.tech.energy,
        BuildKind::Research => p.tech.research_lab,
        BuildKind::Laser => p.tech.laser,
        BuildKind::Espionage => p.tech.espionage,
    };
    let cost = get_upgrade_cost(kind, sat_inc(level));
    if p.resources.metal < cost.metal || p.resources.crystal < cost.crystal
        || p.resources.deuterium < cost.deuterium {
        return Err(GameError::InsufficientResources);
    }
    p.resources.metal = p.resources.metal - cost.metal;
    p.resources.crystal = p.resources.crystal - cost.crystal;
    p.resources.deuterium = p.resources.deuterium - cost.deuterium;
    let duration = get_build_time(cost.metal, cost.crystal, speed);
    p.construction = Some(StructureJob { kind, finish: sat_add(now, duration) });
    Ok(())
}

/// The price of a batch of `quantity` units of `kind`.
pub open spec fn ship_batch_cost(kind: ShipKind, quantity: int) -> Cost {
    Cost {
        metal: (ship_cost_metal_spec(kind) * quantity) as u64,
        crystal: (ship_cost_crystal_spec(kind) * quantity) as u64,
        deuterium: 0,
    }
}

/// The planet after a successful shipyard `start`.
pub open spec fn shipyard_started(p: Planet, kind: ShipKind, quantity: int, speed: int, now: int) -> Planet {
    let cost = ship_batch_cost(kind, quantity);
    Planet {
        resources: deducted(p.resources, cost),
        shipyard: Some(ShipyardJob {
            kind,
            quantity: quantity as u32,
            finish: sat_add_spec(now, ship_time_spec(quantity, speed)) as u64,
        }),
        ..p
    }
}

/// Starts a shipyard batch on an already-reconciled snapshot. An occupied
/// slot always fails with `Conflict` and leaves the planet unchanged; an
/// empty batch is a bad action parameter and fails with `InvalidKind` before
/// any resource mutation.
pub fn start_ship_build(p: &mut Planet, kind: ShipKind, quantity: u32, speed: u64, now: u64) -> (r: Result<(), GameError>)
    requires
        speed >= 1,
    ensures
        old(p).shipyard is Some ==> {
            &&& r == Err::<(), GameError>(GameError::Conflict)
            &&& *final(p) == *old(p)
        },
        old(p).shipyard is None && quantity == 0 ==> {
            &&& r == Err::<(), GameError>(GameError::InvalidKind)
            &&& *final(p) == *old(p)
        },
        old(p).shipyard is None && quantity >= 1
            && !affordable(old(p).resources, ship_batch_cost(kind, quantity as int)) ==> {
            &&& r == Err::<(), GameError>(GameError::InsufficientResources)
            &&& *final(p) == *old(p)
        },
        old(p).shipyard is None && quantity >= 1
            && affordable(old(p).resources, ship_batch_cost(kind, quantity as int)) ==> {
            &&& r == Ok::<(), GameError>(())
            &&& *final(p) == shipyard_started(*old(p), kind, quantity as int, speed as int, now as int)
        },
{
    if p.shipyard.is_some() {
        return Err(GameError::Conflict);
    }
    if quantity == 0 {
        return Err(GameError::InvalidKind);
    }
    let unit = ship_unit_cost(kind);
    let total_metal: u64 = unit.metal * (quantity as u64);
    let total_crystal: u64 = unit.crystal * (quantity as u64);
    if p.resources.metal < total_metal || p.resources.crystal < total_crystal {
        return Err(GameError::InsufficientResources);
    }
    p.resources.metal = p.resources.metal - total_metal;
    p.resources.crystal = p.resources.crystal - total_crystal;
    let duration = get_ship_production_time(quantity, speed);
    p.shipyard = Some(ShipyardJob { kind, quantity, finish: sat_add(now, duration) });
    Ok(())
}

/// Reconcile-then-act transaction for a structure or technology upgrade: the
/// stored snapshot is first brought up to `now` (so a finished previous job
/// frees the slot and spending decisions see current balances), then the
/// queue's `start` is applied to the reconciled snapshot `q`.
pub fn upgrade_structure(p: &mut Planet, kind: BuildKind, speed: u64, now: u64) -> (r: Result<(), GameError>)
    requires
        speed >= 1,
    ensures
        ({
            let q = reconciled(*old(p), speed as int, now as int);
            &&& (q.construction is Some ==> r == Err::<(), GameError>(GameError::Conflict)
                && *final(p) == q)
            &&& (q.construction is None && !affordable(q.resources, structure_cost(q, kind))
                ==> r == Err::<(), GameError>(GameError::InsufficientResources) && *final(p) == q)
            &&& (q.construction is None && affordable(q.resources, structure_cost(q, kind))
                ==> r == Ok::<(), GameError>(()) && *final(p) == structure_started(q, kind, speed as int, now as int))
        }),
{
    reconcile(p, speed, now);
    start_upgrade(p, kind, speed, now)
}

/// Reconcile-then-act transaction for a shipyard batch.
pub fn build_ships(p: &mut Planet, kind: ShipKind, quantity: u32, speed: u64, now: u64) -> (r: Result<(), GameError>)
    requires
        speed >= 1,
    ensures
        ({
            let q = reconciled(*old(p), speed as int, now as int);
            &&& (q.shipyard is Some ==> r == Err::<(), GameError>(GameError::Conflict)
                && *final(p) == q)
            &&& (q.shipyard is None && quantity == 0
                ==> r == Err::<(), GameError>(GameError::InvalidKind) && *final(p) == q)
            &&& (q.shipyard is None && quantity >= 1
                && !affordable(q.resources, ship_batch_cost(kind, quantity as int))
                ==> r == Err::<(), GameError>(GameError::InsufficientResources) && *final(p) == q)
            &&& (q.shipyard is None && quantity >= 1
                && affordable(q.resources, ship_batch_cost(kind, quantity as int))
                ==> r == Ok::<(), GameError>(())
                    && *final(p) == shipyard_started(q, kind, quantity as int, speed as int, now as int))
        }),
{
    reconcile(p, speed, now);
    start_ship_build(p, kind, quantity, speed, now)
}

} // verus!

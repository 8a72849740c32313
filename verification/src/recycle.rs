//! Debris-field recycling: a recycler fleet transfers debris into its owner's
//! resource pools, bounded by both the field's contents and the fleet's
//! capacity.
//!
//! Metal is harvested first, crystal with whatever capacity remains. An empty
//! field is a successful no-op with an `Empty` status.

use vstd::prelude::*;
use crate::errors::GameError;
use crate::num::{min_spec, sat_add, sat_add_spec};
use crate::planet::{DebrisField, Planet, ResourcePools};
use crate::reconcile::{reconcile, reconciled};

verus! {

/// Debris one recycler can carry.
pub open spec fn unit_capacity() -> int {
    20000
}

/// Carrying capacity of a recycler fleet.
pub open spec fn fleet_capacity_spec(recyclers: int) -> int {
    recyclers * unit_capacity()
}

/// Metal harvested: the field's metal, up to the whole capacity.
pub open spec fn harvest_metal_spec(debris_metal: int, capacity: int) -> int {
    min_spec(debris_metal, capacity)
}

/// Crystal harvested: the field's crystal, up to what the metal left over.
pub open spec fn harvest_crystal_spec(debris_metal: int, debris_crystal: int, capacity: int) -> int {
    min_spec(debris_crystal, capacity - harvest_metal_spec(debris_metal, capacity))
}

/// The harvest never exceeds the field's contents nor the fleet's capacity,
/// and never takes a negative amount.
pub proof fn lemma_harvest_bounded(debris_metal: int, debris_crystal: int, capacity: int)
    requires
        debris_metal >= 0,
        debris_crystal >= 0,
        capacity >= 0,
    ensures
        0 <= harvest_metal_spec(debris_metal, capacity),
        0 <= harvest_crystal_spec(debris_metal, debris_crystal, capacity),
        harvest_metal_spec(debris_metal, capacity) + harvest_crystal_spec(
            debris_metal,
            debris_crystal,
            capacity,
        ) <= min_spec(debris_metal + debris_crystal, capacity),
{
}

/// How a recycling run ended.
#[derive(Clone, Copy, Debug, PartialEq, Eq, Structural)]
pub enum RecycleStatus {
    /// The target's field held nothing; nothing changed.
    Empty,
    Harvested,
}

/// What a recycling run transferred.
#[derive(Clone, Copy, Debug, PartialEq, Eq, Structural)]
pub struct RecycleOutcome {
    pub status: RecycleStatus,
    pub metal: u64,
    pub crystal: u64,
}

/// Reconcile-then-act transaction for a recycling run against the debris
/// field at the target planet. Committing no recyclers, or more than are
/// stationed, fails with `InsufficientFleet`. An empty field succeeds as a
/// no-op with the `Empty` status. Otherwise metal first, then crystal, is
/// moved from the field into the harvester's pools, bounded by the field and
/// by the fleet's capacity.
pub fn recycle(
    harvester: &mut Planet,
    target: &mut Planet,
    recyclers: u32,
    speed: u64,
    now: u64,
) -> (r: Result<RecycleOutcome, GameError>)
    requires
        speed >= 1,
    ensures
        ({
            let qh = reconciled(*old(harvester), speed as int, now as int);
            let qt = reconciled(*old(target), speed as int, now as int);
            let capacity = fleet_capacity_spec(recyclers as int);
            let hm = harvest_metal_spec(qt.debris.metal as int, capacity);
            let hc = harvest_crystal_spec(qt.debris.metal as int, qt.debris.crystal as int, capacity);
            &&& (recyclers == 0 || recyclers as int > qh.fleet.recyclers as int ==> {
                &&& r is Err
                &&& r->Err_0 == GameError::InsufficientFleet
                &&& *final(harvester) == qh
                &&& *final(target) == qt
            })
            &&& (recyclers >= 1 && recyclers as int <= qh.fleet.recyclers as int
                && qt.debris.metal == 0 && qt.debris.crystal == 0 ==> {
                &&& r is Ok
                &&& r->Ok_0 == (RecycleOutcome { status: RecycleStatus::Empty, metal: 0u64, crystal: 0u64 })
                &&& *final(harvester) == qh
                &&& *final(target) == qt
            })
            &&& (recyclers >= 1 && recyclers as int <= qh.fleet.recyclers as int
                && !(qt.debris.metal == 0 && qt.debris.crystal == 0) ==> {
                &&& r is Ok
                &&& r->Ok_0.status is Harvested
                &&& r->Ok_0.metal as int == hm
                &&& r->Ok_0.crystal as int == hc
                &&& *final(harvester) == (Planet {
                    resources: ResourcePools {
                        metal: sat_add_spec(qh.resources.metal as int, hm) as u64,
                        crystal: sat_add_spec(qh.resources.crystal as int, hc) as u64,
                        ..qh.resources
                    },
                    ..qh
                })
                &&& *final(target) == (Planet {
                    debris: DebrisField {
                        metal: (qt.debris.metal as int - hm) as u64,
                        crystal: (qt.debris.crystal as int - hc) as u64,
                    },
                    ..qt
                })
            })
        }),
{
    reconcile(harvester, speed, now);
    reconcile(target, speed, now);

    if recyclers == 0 || (recyclers as u64) > harvester.fleet.recyclers {
        return Err(GameError::InsufficientFleet);
    }
    if target.debris.metal == 0 && target.debris.crystal == 0 {
        return Ok(RecycleOutcome { status: RecycleStatus::Empty, metal: 0, crystal: 0 });
    }

    let capacity: u64 = (recyclers as u64) * 20000;
    let harvested_metal: u64 = if target.debris.metal < capacity {
        target.debris.metal
    } else {
        capacity
    };
    let remaining: u64 = capacity - harvested_metal;
    let harvested_crystal: u64 = if target.debris.crystal < remaining {
        target.debris.crystal
    } else {
        remaining
    };

    target.debris.metal = target.debris.metal - harvested_metal;
    target.debris.crystal = target.debris.crystal - harvested_crystal;
    harvester.resources.metal = sat_add(harvester.resources.metal, harvested_metal);
    harvester.resources.crystal = sat_add(harvester.resources.crystal, harvested_crystal);

    Ok(RecycleOutcome { status: RecycleStatus::Harvested, metal: harvested_metal, crystal: harvested_crystal })
}

} // verus!

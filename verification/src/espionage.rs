//! The espionage information-disclosure ladder.
//!
//! Disclosure is cumulative and monotonic in the technology differential
//! between the two planets: resources from a differential of -1, the fleet
//! from 1, the aggregate defense count from 2; below -1 nothing is revealed.
//! Every attempt consumes exactly one spy probe, whatever it reveals.

use vstd::prelude::*;
use crate::errors::GameError;
use crate::num::{sat_add, sat_add_spec};
use crate::planet::{FleetCounts, Planet, ResourcePools};
use crate::reconcile::{reconcile, reconciled};

verus! {

/// How deep the probe saw.
#[derive(Clone, Copy, Debug, PartialEq, Eq, Structural)]
pub enum DetectionLevel {
    /// A differential below -1: nothing revealed.
    Hidden,
    /// Resources revealed.
    Resources,
    /// Resources and fleet revealed.
    Fleet,
    /// Resources, fleet and defense count revealed.
    Full,
}

/// What one probe run disclosed about the defender.
#[derive(Clone, Copy, Debug, PartialEq, Eq, Structural)]
pub struct SpyReport {
    /// Attacker's espionage technology minus the defender's.
    pub tech_difference: i128,
    pub detection: DetectionLevel,
    pub resources: Option<ResourcePools>,
    pub fleet: Option<FleetCounts>,
    /// Missile launchers and plasma turrets, as one aggregate count.
    pub defense_total: Option<u64>,
}

/// The disclosure ladder as a function of the attacker's espionage technology
/// and the defender's snapshot.
pub open spec fn spy_report_spec(att_tech: int, defender: Planet) -> SpyReport {
    let diff = att_tech - defender.tech.espionage as int;
    SpyReport {
        tech_difference: diff as i128,
        detection: if diff < -1 {
            DetectionLevel::Hidden
        } else if diff < 1 {
            DetectionLevel::Resources
        } else if diff < 2 {
            DetectionLevel::Fleet
        } else {
            DetectionLevel::Full
        },
        resources: if diff >= -1 {
            Some(defender.resources)
        } else {
            None
        },
        fleet: if diff >= 1 {
            Some(defender.fleet)
        } else {
            None
        },
        defense_total: if diff >= 2 {
            Some(
                sat_add_spec(
                    defender.defenses.missile_launchers as int,
                    defender.defenses.plasma_turrets as int,
                ) as u64,
            )
        } else {
            None
        },
    }
}

/// Builds the tiered disclosure of the defender for an attacker of the given
/// espionage technology.
pub fn disclosure(att_tech: u64, defender: &Planet) -> (r: SpyReport)
    ensures
        r == spy_report_spec(att_tech as int, *defender),
{
    let diff: i128 = (att_tech as i128) - (defender.tech.espionage as i128);
    SpyReport {
        tech_difference: diff,
        detection: if diff < -1 {
            DetectionLevel::Hidden
        } else if diff < 1 {
            DetectionLevel::Resources
        } else if diff < 2 {
            DetectionLevel::Fleet
        } else {
            DetectionLevel::Full
        },
        resources: if diff >= -1 {
            Some(defender.resources)
        } else {
            None
        },
        fleet: if diff >= 1 {
            Some(defender.fleet)
        } else {
            None
        },
        defense_total: if diff >= 2 {
            Some(sat_add(defender.defenses.missile_launchers, defender.defenses.plasma_turrets))
        } else {
            None
        },
    }
}

/// Reconcile-then-act transaction for a probe run. Without a probe the
/// attempt fails with `InsufficientFleet`; otherwise exactly one probe is
/// consumed — whatever the differential reveals — and the tiered disclosure
/// of the reconciled defender is returned. The defender is only reconciled,
/// never changed by being spied on.
pub fn spy(attacker: &mut Planet, defender: &mut Planet, speed: u64, now: u64) -> (r: Result<
    SpyReport,
    GameError,
>)
    requires
        speed >= 1,
    ensures
        ({
            let qa = reconciled(*old(attacker), speed as int, now as int);
            let qd = reconciled(*old(defender), speed as int, now as int);
            &&& *final(defender) == qd
            &&& (qa.fleet.spy_probes == 0 ==> {
                &&& r is Err
                &&& r->Err_0 == GameError::InsufficientFleet
                &&& *final(attacker) == qa
            })
            &&& (qa.fleet.spy_probes >= 1 ==> {
                &&& r is Ok
                &&& r->Ok_0 == spy_report_spec(qa.tech.espionage as int, qd)
                &&& *final(attacker) == (Planet {
                    fleet: FleetCounts {
                        spy_probes: (qa.fleet.spy_probes - 1) as u64,
                        ..qa.fleet
                    },
                    ..qa
                })
            })
        }),
{
    reconcile(attacker, speed, now);
    reconcile(defender, speed, now);
    if attacker.fleet.spy_probes == 0 {
        return Err(GameError::InsufficientFleet);
    }
    attacker.fleet.spy_probes = attacker.fleet.spy_probes - 1;
    Ok(disclosure(attacker.tech.espionage, defender))
}

} // verus!

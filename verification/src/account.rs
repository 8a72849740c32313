//! What the core contributes to account registration: the starting planet
//! bundle, the free-coordinate rollover, and the ranking score.
//!
//! Credential handling (password hashing, tokens) and the uniqueness lookup
//! are the identity collaborator's concern; it hands the core the chosen name
//! and the last assigned coordinate, and stores what comes back.

use vstd::prelude::*;
use crate::num::{cap, min_spec, sat_add_spec, sat_inc};
use crate::planet::{
    Coordinates, DebrisField, DefenseCounts, FleetCounts, MineLevels, Planet, ResourcePools,
    TechLevels,
};

verus! {

/// Credentials as the transport layer delivers them.
#[derive(Debug)]
pub struct AuthPayload {
    pub username: String,
    pub password: String,
}

/// What a successful registration or login hands back: a session token and
/// the planet the account plays.
#[derive(Debug)]
pub struct AuthResponse {
    pub token: String,
    pub planet_id: String,
}

/// The coordinate right after `c`: the next slot, rolling a full system (15
/// slots) into the next system and a full galaxy (499 systems) into the next
/// galaxy.
pub open spec fn next_coordinates_spec(c: Coordinates) -> Coordinates {
    if c.position + 1 > 15 {
        if c.system + 1 > 499 {
            Coordinates { galaxy: sat_add_spec(c.galaxy as int, 1) as u64, system: 1, position: 1 }
        } else {
            Coordinates { galaxy: c.galaxy, system: (c.system + 1) as u64, position: 1 }
        }
    } else {
        Coordinates { galaxy: c.galaxy, system: c.system, position: (c.position + 1) as u64 }
    }
}

/// The free coordinate to assign after the most recently assigned one. A
/// well-formed coordinate rolls over into a well-formed one.
pub fn next_coordinates(c: Coordinates) -> (r: Coordinates)
    ensures
        r == next_coordinates_spec(c),
        c.wf() ==> r.wf(),
{
    if c.position >= 15 {
        if c.system >= 499 {
            Coordinates { galaxy: sat_inc(c.galaxy), system: 1, position: 1 }
        } else {
            Coordinates { galaxy: c.galaxy, system: c.system + 1, position: 1 }
        }
    } else {
        Coordinates { galaxy: c.galaxy, system: c.system, position: c.position + 1 }
    }
}

/// The fixed starting bundle of a freshly registered planet: level-one mines,
/// empty pools, no fleet, no defenses, no pending jobs, reconciled up to
/// `now`.
pub open spec fn starting_planet_spec(
    id: u128,
    owner_id: u128,
    name: String,
    coords: Coordinates,
    now: u64,
) -> Planet {
    Planet {
        id,
        owner_id,
        name,
        coords,
        mines: MineLevels { metal: 1, crystal: 1, deuterium: 1 },
        resources: ResourcePools { metal: 0, crystal: 0, deuterium: 0 },
        tech: TechLevels { energy: 0, research_lab: 0, laser: 0, espionage: 0 },
        fleet: FleetCounts { light_hunters: 0, cruisers: 0, recyclers: 0, spy_probes: 0 },
        defenses: DefenseCounts { missile_launchers: 0, plasma_turrets: 0 },
        debris: DebrisField { metal: 0, crystal: 0 },
        last_update: now,
        construction: None,
        shipyard: None,
        expedition_end: None,
        unread_report: None,
    }
}

/// Creates the planet a new account starts with.
pub fn new_planet(id: u128, owner_id: u128, name: String, coords: Coordinates, now: u64) -> (r: Planet)
    ensures
        r == starting_planet_spec(id, owner_id, name, coords, now),
{
    Planet {
        id,
        owner_id,
        name,
        coords,
        mines: MineLevels { metal: 1, crystal: 1, deuterium: 1 },
        resources: ResourcePools { metal: 0, crystal: 0, deuterium: 0 },
        tech: TechLevels { energy: 0, research_lab: 0, laser: 0, espionage: 0 },
        fleet: FleetCounts { light_hunters: 0, cruisers: 0, recyclers: 0, spy_probes: 0 },
        defenses: DefenseCounts { missile_launchers: 0, plasma_turrets: 0 },
        debris: DebrisField { metal: 0, crystal: 0 },
        last_update: now,
        construction: None,
        shipyard: None,
        expedition_end: None,
        unread_report: None,
    }
}

/// Ranking score of a planet: structure and technology levels weigh 100
/// each, fleet units 10, static defenses 20. Espionage technology and spy
/// probes do not count.
pub open spec fn score_spec(p: Planet) -> int {
    (p.mines.metal + p.mines.crystal + p.mines.deuterium + p.tech.energy + p.tech.research_lab
        + p.tech.laser) * 100 + (p.fleet.light_hunters + p.fleet.cruisers + p.fleet.recyclers) * 10
        + (p.defenses.missile_launchers + p.defenses.plasma_turrets) * 20
}

/// Ranking score of a planet, saturating at the 64-bit cap.
pub fn compute_score(p: &Planet) -> (r: u64)
    ensures
        r as int == min_spec(score_spec(*p), cap()),
{
    let levels: u128 = (p.mines.metal as u128) + (p.mines.crystal as u128)
        + (p.mines.deuterium as u128) + (p.tech.energy as u128) + (p.tech.research_lab as u128)
        + (p.tech.laser as u128);
    let fleet: u128 = (p.fleet.light_hunters as u128) + (p.fleet.cruisers as u128)
        + (p.fleet.recyclers as u128);
    let defenses: u128 = (p.defenses.missile_launchers as u128) + (p.defenses.plasma_turrets as u128);
    let total: u128 = levels * 100 + fleet * 10 + defenses * 20;
    if total > u64::MAX as u128 {
        u64::MAX
    } else {
        total as u64
    }
}

} // verus!

//! The planet snapshot: the sole aggregate root of the core, plus the
//! immutable combat-log record.
//!
//! All resource pools, unit counts and levels are unsigned, so the "never
//! negative" invariant of the data model holds by construction. The two
//! single-slot queues and the expedition cooldown are tagged unions, so "at
//! most one pending job per queue" holds by construction as well.

use vstd::prelude::*;
use crate::economy::{BuildKind, ShipKind};

verus! {

/// A position on the galaxy map: slot 1–15 of system 1–499 of a galaxy.
#[derive(Clone, Copy, Debug, PartialEq, Eq, Structural)]
pub struct Coordinates {
    pub galaxy: u64,
    pub system: u64,
    pub position: u64,
}

impl Coordinates {
    /// A coordinate the registration rollover can assign.
    pub open spec fn wf(self) -> bool {
        &&& self.galaxy >= 1
        &&& 1 <= self.system <= 499
        &&& 1 <= self.position <= 15
    }
}

/// The level of each of the three mines.
#[derive(Clone, Copy, Debug, PartialEq, Eq, Structural)]
pub struct MineLevels {
    pub metal: u64,
    pub crystal: u64,
    pub deuterium: u64,
}

/// The three stored resource pools.
#[derive(Clone, Copy, Debug, PartialEq, Eq, Structural)]
pub struct ResourcePools {
    pub metal: u64,
    pub crystal: u64,
    pub deuterium: u64,
}

/// The four technology levels.
#[derive(Clone, Copy, Debug, PartialEq, Eq, Structural)]
pub struct TechLevels {
    pub energy: u64,
    pub research_lab: u64,
    pub laser: u64,
    pub espionage: u64,
}

/// The stationed fleet, by unit type.
#[derive(Clone, Copy, Debug, PartialEq, Eq, Structural)]
pub struct FleetCounts {
    pub light_hunters: u64,
    pub cruisers: u64,
    pub recyclers: u64,
    pub spy_probes: u64,
}

/// The static defenses.
#[derive(Clone, Copy, Debug, PartialEq, Eq, Structural)]
pub struct DefenseCounts {
    pub missile_launchers: u64,
    pub plasma_turrets: u64,
}

/// The unowned debris pool sitting at a planet, harvestable by any recycler
/// fleet.
#[derive(Clone, Copy, Debug, PartialEq, Eq, Structural)]
pub struct DebrisField {
    pub metal: u64,
    pub crystal: u64,
}

/// The single in-flight structure or technology upgrade.
#[derive(Clone, Copy, Debug, PartialEq, Eq, Structural)]
pub struct StructureJob {
    pub kind: BuildKind,
    /// Timestamp (seconds) at which the upgrade completes.
    pub finish: u64,
}

/// The single in-flight shipyard batch.
#[derive(Clone, Copy, Debug, PartialEq, Eq, Structural)]
pub struct ShipyardJob {
    pub kind: ShipKind,
    pub quantity: u32,
    /// Timestamp (seconds) at which the whole batch completes.
    pub finish: u64,
}

/// Which side a player-versus-player battle went to.
#[derive(Clone, Copy, Debug, PartialEq, Eq, Structural)]
pub enum Winner {
    Attacker,
    Defender,
}

/// The not-yet-acknowledged outcome of a battle, attached to the defender's
/// planet until the player clears it. Serialization for the client is the
/// transport layer's concern.
#[derive(Clone, Copy, Debug, PartialEq, Eq, Structural)]
pub struct BattleSummary {
    pub winner: Winner,
    pub loot_metal: u64,
    pub loot_crystal: u64,
    pub hunters_lost: u64,
    pub defenses_lost: u64,
}

/// A planet snapshot: everything the core reads or writes about one planet.
/// Timestamps count seconds; `last_update` is the instant up to which
/// resource accrual has been applied.
#[derive(Clone, Debug, PartialEq)]
pub struct Planet {
    pub id: u128,
    pub owner_id: u128,
    pub name: String,
    pub coords: Coordinates,
    pub mines: MineLevels,
    pub resources: ResourcePools,
    pub tech: TechLevels,
    pub fleet: FleetCounts,
    pub defenses: DefenseCounts,
    pub debris: DebrisField,
    pub last_update: u64,
    pub construction: Option<StructureJob>,
    pub shipyard: Option<ShipyardJob>,
    /// Cooldown marker: no new expedition may launch before this instant.
    pub expedition_end: Option<u64>,
    pub unread_report: Option<BattleSummary>,
}

/// Which mission a combat-log record belongs to.
#[derive(Clone, Copy, Debug, PartialEq, Eq, Structural)]
pub enum MissionKind {
    Attack,
    Defense,
    Expedition,
}

/// How a mission ended for the planet the record belongs to.
#[derive(Clone, Copy, Debug, PartialEq, Eq, Structural)]
pub enum BattleResult {
    Victory,
    Defeat,
    Draw,
}

/// An immutable combat-log record: created once, never mutated. Loot is
/// signed: negative amounts record a defender's loss.
#[derive(Clone, Debug, PartialEq)]
pub struct CombatLogEntry {
    pub planet_id: u128,
    pub opponent_name: String,
    pub mission: MissionKind,
    pub result: BattleResult,
    pub loot_metal: i64,
    pub loot_crystal: i64,
    pub ships_lost: u64,
    pub timestamp: u64,
}

impl Planet {
    /// Clears the unread battle report; everything else is untouched.
    pub fn clear_report(&mut self)
        ensures
            *final(self) == (Planet { unread_report: None, ..*old(self) }),
    {
        self.unread_report = None;
    }
}

} // verus!

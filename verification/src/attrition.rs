//! The round-based attrition combat model: damage is exchanged over up to
//! six simultaneous rounds, and each fleet shrinks in proportion to the
//! damage it took against its total defense.
//!
//! This is the alternate resolver for expedition-style encounters; the
//! canonical player-versus-player path uses the single-shot power-ratio
//! resolver in `crate::pvp`. The pirate opposition scales with the player's
//! committed fleet by a drawn percentage.

use vstd::prelude::*;
use vstd::arithmetic::mul::{lemma_mul_inequality, lemma_mul_is_commutative, lemma_mul_nonnegative};
use crate::expedition::{roll_in, ExpeditionWinner};
use crate::num::{lemma_div_le, min_spec};

verus! {

/// A fleet in the attrition model: the three unit types that can fly an
/// expedition.
#[derive(Clone, Copy, Debug, PartialEq, Eq, Structural)]
pub struct Fleet {
    pub hunters: u32,
    pub cruisers: u32,
    pub recyclers: u32,
}

impl Fleet {
    /// Total firepower of one round: 50 per hunter, 400 per cruiser, 1 per
    /// recycler.
    pub open spec fn attack_spec(self) -> int {
        self.hunters * 50 + self.cruisers * 400 + self.recyclers * 1
    }

    /// Total hit points: 400 per hunter, 2700 per cruiser, 1600 per recycler.
    pub open spec fn defense_spec(self) -> int {
        self.hunters * 400 + self.cruisers * 2700 + self.recyclers * 1600
    }

    /// Whether nothing is left of the fleet.
    pub open spec fn destroyed_spec(self) -> bool {
        self.hunters == 0 && self.cruisers == 0 && self.recyclers == 0
    }

    /// The fleet after taking `damage` in one round: every unit count shrinks
    /// by the ratio of the damage to the fleet's total defense; damage at or
    /// beyond the total defense wipes the fleet out.
    pub open spec fn damaged_spec(self, damage: int) -> Fleet {
        let def = self.defense_spec();
        if def <= 0 {
            self
        } else if damage >= def {
            Fleet { hunters: 0, cruisers: 0, recyclers: 0 }
        } else {
            Fleet {
                hunters: (self.hunters * (def - damage) / def) as u32,
                cruisers: (self.cruisers * (def - damage) / def) as u32,
                recyclers: (self.recyclers * (def - damage) / def) as u32,
            }
        }
    }

    /// Total firepower of one round.
    pub fn get_total_attack(&self) -> (r: u64)
        ensures
            r as int == self.attack_spec(),
    {
        (self.hunters as u64) * 50 + (self.cruisers as u64) * 400 + (self.recyclers as u64) * 1
    }

    /// Total hit points.
    pub fn get_total_defense(&self) -> (r: u64)
        ensures
            r as int == self.defense_spec(),
    {
        (self.hunters as u64) * 400 + (self.cruisers as u64) * 2700 + (self.recyclers as u64) * 1600
    }

    /// Whether nothing is left of the fleet.
    pub fn is_destroyed(&self) -> (r: bool)
        ensures
            r == self.destroyed_spec(),
    {
        self.hunters == 0 && self.cruisers == 0 && self.recyclers == 0
    }

    /// Applies one round of damage in place.
    pub fn take_damage(&mut self, damage: u64)
        ensures
            *final(self) == old(self).damaged_spec(damage as int),
    {
        let def: u64 = self.get_total_defense();
        if def == 0 {
            return;
        }
        if damage >= def {
            self.hunters = 0;
            self.cruisers = 0;
            self.recyclers = 0;
            return;
        }
        let keep: u64 = def - damage;
        proof {
            lemma_fleet_scale_bound(self.hunters as int, keep as int, def as int);
            lemma_fleet_scale_bound(self.cruisers as int, keep as int, def as int);
            lemma_fleet_scale_bound(self.recyclers as int, keep as int, def as int);
            assert((self.hunters as int) * (keep as int) <= (u32::MAX as int) * (u64::MAX as int)
                && (self.cruisers as int) * (keep as int) <= (u32::MAX as int) * (u64::MAX as int)
                && (self.recyclers as int) * (keep as int) <= (u32::MAX as int) * (u64::MAX as int))
                by (nonlinear_arith)
                requires
                    0 <= (self.hunters as int) <= (u32::MAX as int),
                    0 <= (self.cruisers as int) <= (u32::MAX as int),
                    0 <= (self.recyclers as int) <= (u32::MAX as int),
                    0 <= (keep as int) <= (u64::MAX as int),
            ;
        }
        self.hunters = (((self.hunters as u128) * (keep as u128)) / (def as u128)) as u32;
        self.cruisers = (((self.cruisers as u128) * (keep as u128)) / (def as u128)) as u32;
        self.recyclers = (((self.recyclers as u128) * (keep as u128)) / (def as u128)) as u32;
    }
}

/// A count scaled by a survival ratio below one never grows.
proof fn lemma_fleet_scale_bound(count: int, keep: int, def: int)
    requires
        0 <= count,
        0 <= keep <= def,
        1 <= def,
    ensures
        0 <= count * keep / def <= count,
{
    lemma_mul_nonnegative(count, keep);
    vstd::arithmetic::div_mod::lemma_div_pos_is_pos(count * keep, def);
    lemma_mul_inequality(keep, def, count);
    lemma_mul_is_commutative(count, keep);
    lemma_mul_is_commutative(count, def);
    lemma_div_le(count * keep, def, count);
}

/// One simultaneous exchange: both fleets fire with their pre-round strength
/// and both take the damage at once.
pub open spec fn attrition_step(player: Fleet, pirate: Fleet) -> (Fleet, Fleet) {
    (player.damaged_spec(pirate.attack_spec()), pirate.damaged_spec(player.attack_spec()))
}

/// Up to `rounds_left` simultaneous exchanges, stopping as soon as either
/// side is destroyed.
pub open spec fn attrition_battle(player: Fleet, pirate: Fleet, rounds_left: nat) -> (Fleet, Fleet)
    decreases rounds_left,
{
    if rounds_left == 0 || player.destroyed_spec() || pirate.destroyed_spec() {
        (player, pirate)
    } else {
        let stepped = attrition_step(player, pirate);
        attrition_battle(stepped.0, stepped.1, (rounds_left - 1) as nat)
    }
}

/// A battle splits: fighting `m + n` rounds is fighting `m`, then `n` more
/// from where that left off.
proof fn lemma_attrition_battle_split(player: Fleet, pirate: Fleet, m: nat, n: nat)
    ensures
        attrition_battle(player, pirate, m + n) == attrition_battle(
            attrition_battle(player, pirate, m).0,
            attrition_battle(player, pirate, m).1,
            n,
        ),
    decreases m,
{
    if m > 0 && !player.destroyed_spec() && !pirate.destroyed_spec() {
        let stepped = attrition_step(player, pirate);
        lemma_attrition_battle_split(stepped.0, stepped.1, (m - 1) as nat, n);
    }
}

/// A battle never grows a fleet: the player's remaining counts are bounded by
/// the committed counts.
proof fn lemma_attrition_battle_shrinks(player: Fleet, pirate: Fleet, rounds_left: nat)
    ensures
        attrition_battle(player, pirate, rounds_left).0.hunters <= player.hunters,
        attrition_battle(player, pirate, rounds_left).0.cruisers <= player.cruisers,
        attrition_battle(player, pirate, rounds_left).0.recyclers <= player.recyclers,
    decreases rounds_left,
{
    if rounds_left > 0 && !player.destroyed_spec() && !pirate.destroyed_spec() {
        let stepped = attrition_step(player, pirate);
        lemma_damaged_shrinks(player, pirate.attack_spec());
        lemma_attrition_battle_shrinks(stepped.0, stepped.1, (rounds_left - 1) as nat);
    }
}

/// One round of damage never grows a fleet.
proof fn lemma_damaged_shrinks(fleet: Fleet, damage: int)
    requires
        damage >= 0,
    ensures
        fleet.damaged_spec(damage).hunters <= fleet.hunters,
        fleet.damaged_spec(damage).cruisers <= fleet.cruisers,
        fleet.damaged_spec(damage).recyclers <= fleet.recyclers,
{
    let def = fleet.defense_spec();
    if def > 0 && damage < def {
        lemma_fleet_scale_bound(fleet.hunters as int, def - damage, def);
        lemma_fleet_scale_bound(fleet.cruisers as int, def - damage, def);
        lemma_fleet_scale_bound(fleet.recyclers as int, def - damage, def);
    }
}

/// Who won an attrition battle, given both final fleets: mutual destruction
/// and a six-round disengage are both draws.
pub open spec fn attrition_winner_spec(player: Fleet, pirate: Fleet) -> ExpeditionWinner {
    if player.destroyed_spec() && pirate.destroyed_spec() {
        ExpeditionWinner::Draw
    } else if pirate.destroyed_spec() {
        ExpeditionWinner::Player
    } else if player.destroyed_spec() {
        ExpeditionWinner::Pirates
    } else {
        ExpeditionWinner::Draw
    }
}

/// The pirate opposition: the player's committed hunters and cruisers scaled
/// by a drawn percentage, rounded up, clamped to the count width; pirates fly
/// no recyclers.
pub open spec fn pirate_fleet_spec(hunters: int, cruisers: int, scaling_pct: int) -> Fleet {
    Fleet {
        hunters: min_spec((hunters * scaling_pct + 99) / 100, u32::MAX as int) as u32,
        cruisers: min_spec((cruisers * scaling_pct + 99) / 100, u32::MAX as int) as u32,
        recyclers: 0,
    }
}

/// The outcome of one attrition battle: the winner, metal salvaged from the
/// beaten pirate wreck, and what is left of the player's fleet.
#[derive(Clone, Copy, Debug, PartialEq, Eq, Structural)]
pub struct CombatReport {
    pub winner: ExpeditionWinner,
    pub loot_metal: u64,
    pub remaining_hunters: u32,
    pub remaining_cruisers: u32,
    pub remaining_recyclers: u32,
}

/// The whole attrition battle as a function of the committed fleet and the
/// two rolls: the pirate scaling percentage and the bonus hunters granted to
/// an otherwise empty pirate fleet.
pub open spec fn attrition_report_spec(
    hunters: int,
    cruisers: int,
    recyclers: int,
    scaling_pct: int,
    bonus_hunters: int,
) -> CombatReport {
    let player = Fleet { hunters: hunters as u32, cruisers: cruisers as u32, recyclers: recyclers as u32 };
    let scaled = pirate_fleet_spec(hunters, cruisers, scaling_pct);
    let pirate = if scaled.destroyed_spec() {
        Fleet { hunters: bonus_hunters as u32, cruisers: 0, recyclers: 0 }
    } else {
        scaled
    };
    let outcome = attrition_battle(player, pirate, 6);
    let winner = attrition_winner_spec(outcome.0, outcome.1);
    CombatReport {
        winner,
        loot_metal: if winner is Player {
            (outcome.1.attack_spec() * 10 + 5000) as u64
        } else {
            0
        },
        remaining_hunters: outcome.0.hunters,
        remaining_cruisers: outcome.0.cruisers,
        remaining_recyclers: outcome.0.recyclers,
    }
}

/// Fights the attrition battle for given rolls: the deterministic core of
/// `resolve_expedition_combat`.
pub fn resolve_attrition(
    hunters: u32,
    cruisers: u32,
    recyclers: u32,
    scaling_pct: u64,
    bonus_hunters: u32,
) -> (r: CombatReport)
    requires
        50 <= scaling_pct < 110,
        1 <= bonus_hunters < 3,
    ensures
        r == attrition_report_spec(
            hunters as int,
            cruisers as int,
            recyclers as int,
            scaling_pct as int,
            bonus_hunters as int,
        ),
        r.remaining_hunters <= hunters,
        r.remaining_cruisers <= cruisers,
        r.remaining_recyclers <= recyclers,
{
    let player0 = Fleet { hunters, cruisers, recyclers };
    proof {
        assert((hunters as int) * (scaling_pct as int) <= (u32::MAX as int) * 110
            && (cruisers as int) * (scaling_pct as int) <= (u32::MAX as int) * 110)
            by (nonlinear_arith)
            requires
                0 <= (hunters as int) <= (u32::MAX as int),
                0 <= (cruisers as int) <= (u32::MAX as int),
                0 <= (scaling_pct as int) < 110,
        ;
    }
    let ph: u128 = ((hunters as u128) * (scaling_pct as u128) + 99) / 100;
    let pc: u128 = ((cruisers as u128) * (scaling_pct as u128) + 99) / 100;
    let scaled = Fleet {
        hunters: if ph > u32::MAX as u128 {
            u32::MAX
        } else {
            ph as u32
        },
        cruisers: if pc > u32::MAX as u128 {
            u32::MAX
        } else {
            pc as u32
        },
        recyclers: 0,
    };
    let pirate0 = if scaled.is_destroyed() {
        Fleet { hunters: bonus_hunters, cruisers: 0, recyclers: 0 }
    } else {
        scaled
    };

    let mut player = player0;
    let mut pirate = pirate0;
    let mut round: u64 = 0;
    while round < 6
        invariant
            0 <= round <= 6,
            (player, pirate) == attrition_battle(player0, pirate0, round as nat),
        decreases 6 - round,
    {
        if player.is_destroyed() || pirate.is_destroyed() {
            proof {
                lemma_attrition_battle_split(player0, pirate0, round as nat, 1);
                assert(attrition_battle(player, pirate, 1) == (player, pirate));
            }
        } else {
            let ghost pre_player = player;
            let ghost pre_pirate = pirate;
            let player_damage: u64 = player.get_total_attack();
            let pirate_damage: u64 = pirate.get_total_attack();
            player.take_damage(pirate_damage);
            pirate.take_damage(player_damage);
            proof {
                lemma_attrition_battle_split(player0, pirate0, round as nat, 1);
                let stepped = attrition_step(pre_player, pre_pirate);
                assert(attrition_battle(pre_player, pre_pirate, 1)
                    == attrition_battle(stepped.0, stepped.1, 0));
                assert(attrition_battle(stepped.0, stepped.1, 0) == stepped);
                assert((player, pirate) == stepped);
            }
        }
        round = round + 1;
    }
    proof {
        if round == 6 {
            assert((player, pirate) == attrition_battle(player0, pirate0, 6));
        }
        lemma_attrition_battle_shrinks(player0, pirate0, 6);
    }

    let winner: ExpeditionWinner = if player.is_destroyed() && pirate.is_destroyed() {
        ExpeditionWinner::Draw
    } else if pirate.is_destroyed() {
        ExpeditionWinner::Player
    } else if player.is_destroyed() {
        ExpeditionWinner::Pirates
    } else {
        ExpeditionWinner::Draw
    };
    let loot_metal: u64 = if matches!(winner, ExpeditionWinner::Player) {
        pirate.get_total_attack() * 10 + 5000
    } else {
        0
    };
    CombatReport {
        winner,
        loot_metal,
        remaining_hunters: player.hunters,
        remaining_cruisers: player.cruisers,
        remaining_recyclers: player.recyclers,
    }
}

/// Fights one expedition encounter against a freshly drawn pirate fleet:
/// scaling between 50% and 110% of the committed fleet, and one or two bonus
/// hunters when the scaled fleet would be empty. Whatever the generator
/// returned, the report is the deterministic battle of admissible rolls, and
/// the surviving fleet never exceeds the committed one.
pub fn resolve_expedition_combat(hunters: u32, cruisers: u32, recyclers: u32) -> (r: CombatReport)
    ensures
        exists|scaling_pct: int, bonus_hunters: int|
            {
                &&& 50 <= scaling_pct < 110
                &&& 1 <= bonus_hunters < 3
                &&& r == #[trigger] attrition_report_spec(
                    hunters as int,
                    cruisers as int,
                    recyclers as int,
                    scaling_pct,
                    bonus_hunters,
                )
            },
        r.remaining_hunters <= hunters,
        r.remaining_cruisers <= cruisers,
        r.remaining_recyclers <= recyclers,
{
    let scaling_pct: u64 = roll_in(50, 110);
    let bonus_hunters: u64 = roll_in(1, 3);
    let r = resolve_attrition(hunters, cruisers, recyclers, scaling_pct, bonus_hunters as u32);
    proof {
        assert(r == attrition_report_spec(
            hunters as int,
            cruisers as int,
            recyclers as int,
            scaling_pct as int,
            bonus_hunters as int,
        ));
    }
    r
}

} // verus!

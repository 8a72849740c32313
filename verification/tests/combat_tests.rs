use stellar_core::account::new_planet;
use stellar_core::attrition::{resolve_attrition, resolve_expedition_combat, Fleet};
use stellar_core::errors::GameError;
use stellar_core::expedition::{
    launch_expedition, resolve_expedition, simulate_combat, ExpeditionWinner,
};
use stellar_core::planet::{
    BattleResult, Coordinates, MissionKind, Planet, ResourcePools, Winner,
};
use stellar_core::pvp::{attack, resolve_pvp};

fn home(id: u128, now: u64) -> Planet {
    new_planet(
        id,
        id + 1000,
        "base".to_string(),
        Coordinates { galaxy: 1, system: 1, position: 1 },
        now,
    )
}

#[test]
fn equal_powers_go_to_the_defender() {
    // 1 hunter each: 10 versus 10
    let pools = ResourcePools { metal: 1000, crystal: 0, deuterium: 0 };
    let r = resolve_pvp(1, 0, 1, 0, 0, 0, 0, &pools);
    assert_eq!(r.winner, Winner::Defender);
    assert_eq!(r.loot.metal, 0);
    assert_eq!(r.debris_metal, 0);
}

#[test]
fn hundred_hunters_crush_an_open_planet() {
    // attack power 1000 against defense power 0 over 1000 metal
    let pools = ResourcePools { metal: 1000, crystal: 0, deuterium: 0 };
    let r = resolve_pvp(100, 0, 0, 0, 0, 0, 0, &pools);
    assert_eq!(r.winner, Winner::Attacker);
    assert_eq!(r.attack_power, 1000);
    assert_eq!(r.defense_power, 0);
    assert_eq!(r.loot.metal, 500);
    // the loss share is 0.1 + 0.4 * 0: exactly ten hunters
    assert_eq!(r.attacker_losses, 10);
    assert!((10..=50).contains(&r.attacker_losses));
}

#[test]
fn resistance_raises_the_attackers_losses() {
    // defense power 500 against attack power 1000: share 0.1 + 0.4*0.5 = 0.3
    let pools = ResourcePools { metal: 0, crystal: 0, deuterium: 0 };
    let r = resolve_pvp(100, 0, 50, 0, 0, 0, 0, &pools);
    assert_eq!(r.winner, Winner::Attacker);
    assert_eq!(r.attacker_losses, 30);
    // the defender loses eight tenths of its hunters
    assert_eq!(r.defender_hunter_losses, 40);
}

#[test]
fn destroyed_defenses_become_debris() {
    let pools = ResourcePools { metal: 0, crystal: 0, deuterium: 0 };
    let r = resolve_pvp(1000, 0, 0, 0, 0, 10, 10, &pools);
    assert_eq!(r.winner, Winner::Attacker);
    assert_eq!(r.missiles_destroyed, 6);
    assert_eq!(r.plasmas_destroyed, 6);
    assert_eq!(r.debris_metal, 6 * 2000 + 6 * 50000);
    assert_eq!(r.debris_crystal, 6 * 50000);
}

#[test]
fn held_fortress_costs_the_attacker_most_of_the_wave() {
    let pools = ResourcePools { metal: 900, crystal: 0, deuterium: 0 };
    let r = resolve_pvp(10, 0, 0, 0, 0, 0, 1, &pools);
    // 100 versus 200: the defense holds
    assert_eq!(r.winner, Winner::Defender);
    assert_eq!(r.attacker_losses, 8);
    assert_eq!(r.loot.metal, 0);
    assert_eq!(r.plasmas_destroyed, 0); // one turret at one tenth rounds to zero
}

#[test]
fn attack_applies_loot_losses_debris_and_the_unread_report() {
    let mut attacker = home(1, 1000);
    attacker.fleet.light_hunters = 100;
    let mut defender = home(2, 1000);
    defender.resources.metal = 1000;
    defender.mines = stellar_core::planet::MineLevels { metal: 0, crystal: 0, deuterium: 0 };
    attacker.mines = stellar_core::planet::MineLevels { metal: 0, crystal: 0, deuterium: 0 };

    let out = attack(&mut attacker, &mut defender, 100, 0, 10, 1000).unwrap();
    assert_eq!(out.report.winner, Winner::Attacker);
    assert_eq!(attacker.fleet.light_hunters, 90);
    assert_eq!(attacker.resources.metal, 500);
    assert_eq!(defender.resources.metal, 500);
    let summary = defender.unread_report.unwrap();
    assert_eq!(summary.winner, Winner::Attacker);
    assert_eq!(summary.loot_metal, 500);

    assert_eq!(out.attacker_log.mission, MissionKind::Attack);
    assert_eq!(out.attacker_log.result, BattleResult::Victory);
    assert_eq!(out.attacker_log.loot_metal, 500);
    assert_eq!(out.attacker_log.opponent_name, "base");
    assert_eq!(out.defender_log.mission, MissionKind::Defense);
    assert_eq!(out.defender_log.result, BattleResult::Defeat);
    assert_eq!(out.defender_log.loot_metal, -500);
}

#[test]
fn self_attack_and_empty_waves_are_invalid_targets() {
    let mut a = home(1, 1000);
    let mut b = home(1, 1000); // same id: a stale copy of the same planet
    assert_eq!(attack(&mut a, &mut b, 1, 0, 10, 1000), Err(GameError::InvalidTarget));

    let mut a = home(1, 1000);
    let mut b = home(2, 1000);
    assert_eq!(attack(&mut a, &mut b, 0, 0, 10, 1000), Err(GameError::InvalidTarget));
}

#[test]
fn overcommitting_the_fleet_is_rejected() {
    let mut a = home(1, 1000);
    a.fleet.light_hunters = 5;
    let mut b = home(2, 1000);
    assert_eq!(attack(&mut a, &mut b, 6, 0, 10, 1000), Err(GameError::InsufficientFleet));
    assert_eq!(a.fleet.light_hunters, 5);
}

#[test]
fn strength_comparison_decides_the_encounter() {
    // 10 ships + 5*2 bonus = 20: loses to 20, beats 19
    assert!(!simulate_combat(10, 2, 20, 0).victory);
    assert!(simulate_combat(10, 2, 19, 0).victory);
    assert_eq!(simulate_combat(100, 0, 0, 15).ships_lost, 15);
}

#[test]
fn quiet_scan_finds_the_fixed_deposit() {
    let out = resolve_expedition(10, 5, 0, 500, false, 50, 10);
    assert_eq!(out.winner, ExpeditionWinner::Player);
    assert!(!out.encounter);
    assert_eq!(out.loot_metal, 50000);
    assert_eq!(out.hunters_lost, 0);
    assert_eq!(out.cruisers_lost, 0);
}

#[test]
fn won_encounter_loots_scaled_metal() {
    // fleet 100 beats pirate 50; loot 5000 * (100/100); losses 10% of the fleet
    let out = resolve_expedition(100, 0, 0, 100, true, 50, 10);
    assert_eq!(out.winner, ExpeditionWinner::Player);
    assert_eq!(out.loot_metal, 5000);
    assert_eq!(out.hunters_lost, 10);
    assert_eq!(out.cruisers_lost, 0);
}

#[test]
fn lost_encounter_takes_fixed_shares() {
    // fleet 10 loses to pirate 99: half the hunters, three tenths of the cruisers
    let out = resolve_expedition(7, 10, 0, 500, true, 99, 10);
    assert_eq!(out.winner, ExpeditionWinner::Pirates);
    assert_eq!(out.loot_metal, 0);
    assert_eq!(out.hunters_lost, 3);
    assert_eq!(out.cruisers_lost, 3);
}

#[test]
fn expedition_arms_the_cooldown_and_blocks_a_relaunch() {
    let mut p = home(3, 1000);
    p.mines = stellar_core::planet::MineLevels { metal: 0, crystal: 0, deuterium: 0 };
    let report = launch_expedition(&mut p, 500, 1000).unwrap();
    // cooldown 600/500 floors to the one-second minimum
    assert_eq!(p.expedition_end, Some(1001));
    // with no fleet nothing can be lost, and loot is one of the two fixed outcomes
    assert!(p.resources.metal == 0 || p.resources.metal == 50000);
    assert_eq!(p.fleet.light_hunters, 0);
    assert_eq!(report.log.mission, MissionKind::Expedition);
    assert_eq!(report.log.timestamp, 1000);
    assert_eq!(report.log.ships_lost, 0);

    // the cooldown still runs at the same instant
    assert_eq!(launch_expedition(&mut p, 500, 1000), Err(GameError::Conflict));
    // and has expired a few seconds later
    assert!(launch_expedition(&mut p, 500, 1005).is_ok());
}

#[test]
fn expedition_outcomes_stay_in_their_drawn_ranges() {
    for _ in 0..50 {
        let mut p = home(4, 1000);
        p.fleet.light_hunters = 100;
        p.fleet.cruisers = 10;
        p.mines = stellar_core::planet::MineLevels { metal: 0, crystal: 0, deuterium: 0 };
        let report = launch_expedition(&mut p, 100, 2000).unwrap();
        let out = report.outcome;
        if out.encounter {
            assert!((10..100).contains(&out.pirate_strength));
            if out.winner == ExpeditionWinner::Player {
                // losses come from a share below 20 percent of 110 ships
                assert!(out.hunters_lost <= 21);
                assert_eq!(out.loot_metal, 5000);
            } else {
                assert_eq!(out.hunters_lost, 50);
                assert_eq!(out.cruisers_lost, 3);
            }
        } else {
            assert_eq!(out.loot_metal, 50000);
        }
        assert_eq!(p.fleet.light_hunters, 100 - out.hunters_lost);
        assert_eq!(p.fleet.cruisers, 10 - out.cruisers_lost);
    }
}

#[test]
fn fleet_arithmetic_of_the_attrition_model() {
    let f = Fleet { hunters: 10, cruisers: 2, recyclers: 1 };
    assert_eq!(f.get_total_attack(), 10 * 50 + 2 * 400 + 1);
    assert_eq!(f.get_total_defense(), 10 * 400 + 2 * 2700 + 1600);
    assert!(!f.is_destroyed());
    assert!(Fleet { hunters: 0, cruisers: 0, recyclers: 0 }.is_destroyed());
}

#[test]
fn proportional_damage_shrinks_a_fleet() {
    let mut f = Fleet { hunters: 10, cruisers: 0, recyclers: 0 };
    // 1000 damage on 4000 defense: a quarter of the fleet burns
    f.take_damage(1000);
    assert_eq!(f, Fleet { hunters: 7, cruisers: 0, recyclers: 0 });
    // overwhelming damage wipes it out
    f.take_damage(1_000_000);
    assert!(f.is_destroyed());
}

#[test]
fn attrition_battle_of_ten_hunters_at_half_scaling() {
    // pirates get ceil(10*50/100) = 5 hunters and are ground down in three
    // rounds; the salvage formula on an annihilated wreck leaves the base 5000
    let r = resolve_attrition(10, 0, 0, 50, 1);
    assert_eq!(r.winner, ExpeditionWinner::Player);
    assert_eq!(r.loot_metal, 5000);
    assert_eq!(r.remaining_hunters, 7);
    assert_eq!(r.remaining_cruisers, 0);
    assert_eq!(r.remaining_recyclers, 0);
}

#[test]
fn lone_ship_meets_the_bonus_pirates() {
    // one recycler scales to an empty pirate fleet, so the bonus hunters
    // appear: two hunters against a lone recycler
    let r = resolve_attrition(0, 0, 1, 50, 2);
    // the hunters' 100 damage on the recycler's 1600 defense rounds the one
    // survivor down to zero in the first exchange
    assert_eq!(r.winner, ExpeditionWinner::Pirates);
    assert_eq!(r.loot_metal, 0);
    assert_eq!(r.remaining_recyclers, 0);
}

#[test]
fn rolled_attrition_combat_never_grows_the_fleet() {
    for _ in 0..20 {
        let r = resolve_expedition_combat(10, 5, 2);
        assert!(r.remaining_hunters <= 10);
        assert!(r.remaining_cruisers <= 5);
        assert!(r.remaining_recyclers <= 2);
        if r.winner == ExpeditionWinner::Player {
            assert_eq!(r.loot_metal, 5000);
        } else {
            assert_eq!(r.loot_metal, 0);
        }
    }
}

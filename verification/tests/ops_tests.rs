use stellar_core::account::{compute_score, new_planet, next_coordinates, AuthPayload, AuthResponse};
use stellar_core::errors::GameError;
use stellar_core::espionage::{disclosure, spy, DetectionLevel};
use stellar_core::planet::{Coordinates, Planet};
use stellar_core::recycle::{recycle, RecycleStatus};

fn home(id: u128, now: u64) -> Planet {
    let mut p = new_planet(
        id,
        id + 1000,
        "port".to_string(),
        Coordinates { galaxy: 2, system: 30, position: 4 },
        now,
    );
    p.mines = stellar_core::planet::MineLevels { metal: 0, crystal: 0, deuterium: 0 };
    p
}

#[test]
fn a_lead_of_three_reveals_everything() {
    let mut attacker = home(1, 1000);
    attacker.fleet.spy_probes = 2;
    attacker.tech.espionage = 3;
    let mut defender = home(2, 1000);
    defender.resources.metal = 777;
    defender.fleet.light_hunters = 9;
    defender.defenses.missile_launchers = 4;
    defender.defenses.plasma_turrets = 2;

    let report = spy(&mut attacker, &mut defender, 10, 1000).unwrap();
    assert_eq!(report.tech_difference, 3);
    assert_eq!(report.detection, DetectionLevel::Full);
    assert_eq!(report.resources.unwrap().metal, 777);
    assert_eq!(report.fleet.unwrap().light_hunters, 9);
    assert_eq!(report.defense_total, Some(6));
    // exactly one probe is consumed
    assert_eq!(attacker.fleet.spy_probes, 1);
    // the defender is untouched
    assert_eq!(defender.resources.metal, 777);
}

#[test]
fn a_deficit_of_five_reveals_nothing_but_still_burns_the_probe() {
    let mut attacker = home(1, 1000);
    attacker.fleet.spy_probes = 1;
    let mut defender = home(2, 1000);
    defender.tech.espionage = 5;

    let report = spy(&mut attacker, &mut defender, 10, 1000).unwrap();
    assert_eq!(report.tech_difference, -5);
    assert_eq!(report.detection, DetectionLevel::Hidden);
    assert_eq!(report.resources, None);
    assert_eq!(report.fleet, None);
    assert_eq!(report.defense_total, None);
    assert_eq!(attacker.fleet.spy_probes, 0);
}

#[test]
fn the_disclosure_ladder_is_cumulative() {
    let defender = home(2, 1000);
    assert_eq!(disclosure(0, &defender).detection, DetectionLevel::Resources); // diff 0
    let mut leader = home(3, 1000);
    leader.tech.espionage = 1;
    assert_eq!(disclosure(2, &leader).detection, DetectionLevel::Fleet); // diff 1
    assert_eq!(disclosure(0, &leader).detection, DetectionLevel::Resources); // diff -1
    assert_eq!(disclosure(3, &leader).detection, DetectionLevel::Full); // diff 2
}

#[test]
fn spying_without_a_probe_fails() {
    let mut attacker = home(1, 1000);
    let mut defender = home(2, 1000);
    assert_eq!(spy(&mut attacker, &mut defender, 10, 1000), Err(GameError::InsufficientFleet));
}

#[test]
fn two_recyclers_empty_a_small_field() {
    let mut harvester = home(1, 1000);
    harvester.fleet.recyclers = 2;
    let mut target = home(2, 1000);
    target.debris.metal = 10000;
    target.debris.crystal = 5000;

    let out = recycle(&mut harvester, &mut target, 2, 10, 1000).unwrap();
    assert_eq!(out.status, RecycleStatus::Harvested);
    assert_eq!(out.metal, 10000);
    assert_eq!(out.crystal, 5000);
    assert_eq!(harvester.resources.metal, 10000);
    assert_eq!(harvester.resources.crystal, 5000);
    assert_eq!(target.debris.metal, 0);
    assert_eq!(target.debris.crystal, 0);
}

#[test]
fn capacity_limits_the_harvest_metal_first() {
    let mut harvester = home(1, 1000);
    harvester.fleet.recyclers = 1;
    let mut target = home(2, 1000);
    target.debris.metal = 15000;
    target.debris.crystal = 30000;

    let out = recycle(&mut harvester, &mut target, 1, 10, 1000).unwrap();
    // one recycler carries 20000: all the metal, then 5000 of crystal
    assert_eq!(out.metal, 15000);
    assert_eq!(out.crystal, 5000);
    assert_eq!(target.debris.metal, 0);
    assert_eq!(target.debris.crystal, 25000);
}

#[test]
fn an_empty_field_is_a_no_op_with_the_empty_status() {
    let mut harvester = home(1, 1000);
    harvester.fleet.recyclers = 3;
    let before_resources = harvester.resources;
    let mut target = home(2, 1000);

    let out = recycle(&mut harvester, &mut target, 3, 10, 1000).unwrap();
    assert_eq!(out.status, RecycleStatus::Empty);
    assert_eq!(out.metal, 0);
    assert_eq!(out.crystal, 0);
    assert_eq!(harvester.resources, before_resources);
}

#[test]
fn committing_no_or_too_many_recyclers_fails() {
    let mut harvester = home(1, 1000);
    harvester.fleet.recyclers = 2;
    let mut target = home(2, 1000);
    target.debris.metal = 100;
    assert_eq!(recycle(&mut harvester, &mut target, 0, 10, 1000), Err(GameError::InsufficientFleet));
    assert_eq!(recycle(&mut harvester, &mut target, 3, 10, 1000), Err(GameError::InsufficientFleet));
    assert_eq!(target.debris.metal, 100);
}

#[test]
fn coordinates_roll_through_slots_systems_and_galaxies() {
    let c = Coordinates { galaxy: 1, system: 1, position: 3 };
    assert_eq!(next_coordinates(c), Coordinates { galaxy: 1, system: 1, position: 4 });
    let full_system = Coordinates { galaxy: 1, system: 1, position: 15 };
    assert_eq!(next_coordinates(full_system), Coordinates { galaxy: 1, system: 2, position: 1 });
    let full_galaxy = Coordinates { galaxy: 1, system: 499, position: 15 };
    assert_eq!(next_coordinates(full_galaxy), Coordinates { galaxy: 2, system: 1, position: 1 });
}

#[test]
fn a_new_planet_starts_with_the_fixed_bundle() {
    let p = new_planet(5, 55, "haven".to_string(), Coordinates { galaxy: 3, system: 7, position: 9 }, 42);
    assert_eq!(p.id, 5);
    assert_eq!(p.owner_id, 55);
    assert_eq!(p.name, "haven");
    assert_eq!(p.coords, Coordinates { galaxy: 3, system: 7, position: 9 });
    assert_eq!((p.mines.metal, p.mines.crystal, p.mines.deuterium), (1, 1, 1));
    assert_eq!(p.resources.metal, 0);
    assert_eq!(p.fleet.light_hunters, 0);
    assert_eq!(p.last_update, 42);
    assert_eq!(p.construction, None);
    assert_eq!(p.shipyard, None);
    assert_eq!(p.expedition_end, None);
    assert_eq!(p.unread_report, None);
}

#[test]
fn the_score_weighs_levels_fleet_and_defenses() {
    let mut p = home(1, 0);
    p.mines = stellar_core::planet::MineLevels { metal: 2, crystal: 1, deuterium: 1 };
    p.tech.energy = 1;
    p.tech.espionage = 9; // espionage does not count
    p.fleet.light_hunters = 3;
    p.fleet.spy_probes = 9; // probes do not count
    p.defenses.missile_launchers = 2;
    assert_eq!(compute_score(&p), 5 * 100 + 3 * 10 + 2 * 20);
}

#[test]
fn auth_types_carry_their_fields() {
    let payload = AuthPayload { username: "cmdr".to_string(), password: "orbital".to_string() };
    assert_eq!(payload.username, "cmdr");
    let response = AuthResponse { token: "tok".to_string(), planet_id: "42".to_string() };
    assert_eq!(response.planet_id, "42");
}

use stellar_core::account::new_planet;
use stellar_core::economy::{BuildKind, ShipKind};
use stellar_core::errors::GameError;
use stellar_core::planet::{Coordinates, Planet, ResourcePools, ShipyardJob, StructureJob};
use stellar_core::queue::{build_ships, start_ship_build, start_upgrade, upgrade_structure};

fn home(now: u64) -> Planet {
    new_planet(
        9,
        90,
        "forge".to_string(),
        Coordinates { galaxy: 1, system: 2, position: 3 },
        now,
    )
}

#[test]
fn starting_an_upgrade_pays_and_fills_the_slot() {
    let mut p = home(1000);
    p.resources = ResourcePools { metal: 100, crystal: 100, deuterium: 0 };
    let r = start_upgrade(&mut p, BuildKind::MetalMine, 500, 1000);
    assert_eq!(r, Ok(()));
    // level-2 price is (90, 22, 0)
    assert_eq!(p.resources.metal, 10);
    assert_eq!(p.resources.crystal, 78);
    // duration floors at 2 seconds at this speed
    assert_eq!(p.construction, Some(StructureJob { kind: BuildKind::MetalMine, finish: 1002 }));
}

#[test]
fn second_start_on_an_occupied_queue_conflicts_and_changes_nothing() {
    let mut p = home(1000);
    p.resources = ResourcePools { metal: 100000, crystal: 100000, deuterium: 100000 };
    assert_eq!(start_upgrade(&mut p, BuildKind::MetalMine, 500, 1000), Ok(()));
    let occupied = p.clone();
    let r = start_upgrade(&mut p, BuildKind::CrystalMine, 500, 1000);
    assert_eq!(r, Err(GameError::Conflict));
    assert_eq!(p, occupied);
}

#[test]
fn unaffordable_upgrade_is_rejected_before_any_deduction() {
    let mut p = home(1000);
    p.resources = ResourcePools { metal: 50, crystal: 50, deuterium: 0 };
    let before = p.clone();
    let r = start_upgrade(&mut p, BuildKind::Laser, 500, 1000);
    assert_eq!(r, Err(GameError::InsufficientResources));
    assert_eq!(p, before);
}

#[test]
fn upgrade_transaction_reconciles_before_spending() {
    // the planet cannot afford the upgrade from its stored pools, but an
    // hour of accrued production covers it
    let mut p = home(1000);
    p.mines.metal = 3; // produces 30*3*1.1^3*10 = 1197 per hour
    p.resources = ResourcePools { metal: 0, crystal: 300, deuterium: 0 };
    let r = upgrade_structure(&mut p, BuildKind::MetalMine, 10, 4600);
    assert_eq!(r, Ok(()));
    // level-4 metal price: 60 -> 90 -> 135 -> 202; crystal: 15 -> 22 -> 33 -> 49.
    // the level-1 crystal mine accrued 20*1*1.1*10 = 220 over the hour.
    assert_eq!(p.resources.metal, 1197 - 202);
    assert_eq!(p.resources.crystal, 300 + 220 - 49);
    assert!(p.construction.is_some());
}

#[test]
fn upgrade_transaction_completes_a_due_job_first() {
    let mut p = home(1000);
    p.resources = ResourcePools { metal: 100000, crystal: 100000, deuterium: 0 };
    p.construction = Some(StructureJob { kind: BuildKind::MetalMine, finish: 1200 });
    // at 1500 the old job is done, so the slot is free for a new one
    let r = upgrade_structure(&mut p, BuildKind::CrystalMine, 500, 1500);
    assert_eq!(r, Ok(()));
    assert_eq!(p.mines.metal, 2);
    assert_eq!(p.construction.unwrap().kind, BuildKind::CrystalMine);
}

#[test]
fn ship_batch_pays_per_unit_and_fills_the_slot() {
    let mut p = home(1000);
    p.resources = ResourcePools { metal: 10000, crystal: 4000, deuterium: 0 };
    let r = start_ship_build(&mut p, ShipKind::LightHunter, 3, 500, 1000);
    assert_eq!(r, Ok(()));
    assert_eq!(p.resources.metal, 1000);
    assert_eq!(p.resources.crystal, 1000);
    assert_eq!(
        p.shipyard,
        Some(ShipyardJob { kind: ShipKind::LightHunter, quantity: 3, finish: 1001 })
    );
}

#[test]
fn occupied_shipyard_conflicts_and_changes_nothing() {
    let mut p = home(1000);
    p.resources = ResourcePools { metal: 100000, crystal: 100000, deuterium: 0 };
    assert_eq!(start_ship_build(&mut p, ShipKind::SpyProbe, 1, 500, 1000), Ok(()));
    let occupied = p.clone();
    let r = start_ship_build(&mut p, ShipKind::Cruiser, 1, 500, 1000);
    assert_eq!(r, Err(GameError::Conflict));
    assert_eq!(p, occupied);
}

#[test]
fn empty_batch_is_an_invalid_kind() {
    let mut p = home(1000);
    let before = p.clone();
    assert_eq!(build_ships(&mut p, ShipKind::Cruiser, 0, 500, 1000), Err(GameError::InvalidKind));
    assert_eq!(p, before);
}

#[test]
fn unaffordable_batch_is_rejected_whole() {
    let mut p = home(1000);
    p.resources = ResourcePools { metal: 5999, crystal: 2000, deuterium: 0 };
    let before = p.clone();
    // two hunters cost (6000, 2000)
    let r = start_ship_build(&mut p, ShipKind::LightHunter, 2, 500, 1000);
    assert_eq!(r, Err(GameError::InsufficientResources));
    assert_eq!(p, before);
}

use stellar_core::account::new_planet;
use stellar_core::accrual::calculate_resources;
use stellar_core::economy::{BuildKind, ResourceType, ShipKind};
use stellar_core::planet::{Coordinates, Planet, ShipyardJob, StructureJob};
use stellar_core::reconcile::reconcile;

fn home(now: u64) -> Planet {
    new_planet(
        7,
        70,
        "colony".to_string(),
        Coordinates { galaxy: 1, system: 1, position: 1 },
        now,
    )
}

#[test]
fn accrual_matches_the_production_curve() {
    // level-1 metal mine, speed factor 10, one hour: 30 * 1 * 1.1 * 10 = 330
    assert_eq!(calculate_resources(ResourceType::Metal, 1, 0, 1000, 4600, 10), 330);
}

#[test]
fn accrual_over_zero_elapsed_returns_the_amount() {
    assert_eq!(calculate_resources(ResourceType::Metal, 5, 1234, 1000, 1000, 500), 1234);
}

#[test]
fn clock_skew_accrues_nothing() {
    // now earlier than the last reconciliation: the amount is kept
    assert_eq!(calculate_resources(ResourceType::Crystal, 5, 1234, 2000, 1000, 500), 1234);
}

#[test]
fn any_positive_interval_credits_at_least_one_unit() {
    // 11 per hour over one second rounds up to one unit
    assert_eq!(calculate_resources(ResourceType::Deuterium, 1, 0, 0, 1, 1), 1);
}

#[test]
fn reconcile_accrues_all_three_pools_and_advances_the_clock() {
    let mut p = home(1000);
    p.mines = stellar_core::planet::MineLevels { metal: 1, crystal: 1, deuterium: 1 };
    reconcile(&mut p, 10, 4600);
    assert_eq!(p.resources.metal, 330);
    assert_eq!(p.resources.crystal, 220);
    assert_eq!(p.resources.deuterium, 110);
    assert_eq!(p.last_update, 4600);
}

#[test]
fn reconcile_never_rolls_the_clock_back() {
    let mut p = home(5000);
    reconcile(&mut p, 10, 1000);
    assert_eq!(p.last_update, 5000);
    assert_eq!(p.resources.metal, 0);
}

#[test]
fn due_construction_completes_exactly_once() {
    let mut p = home(1000);
    p.construction = Some(StructureJob { kind: BuildKind::MetalMine, finish: 2000 });
    reconcile(&mut p, 10, 2000);
    assert_eq!(p.mines.metal, 2);
    assert_eq!(p.construction, None);
    // a second pass finds nothing left to apply
    reconcile(&mut p, 10, 3000);
    assert_eq!(p.mines.metal, 2);
}

#[test]
fn early_reconcile_leaves_the_job_pending() {
    let mut p = home(1000);
    p.construction = Some(StructureJob { kind: BuildKind::Laser, finish: 2000 });
    reconcile(&mut p, 10, 1500);
    assert_eq!(p.tech.laser, 0);
    assert_eq!(p.construction, Some(StructureJob { kind: BuildKind::Laser, finish: 2000 }));
}

#[test]
fn due_shipyard_batch_enters_service() {
    let mut p = home(1000);
    p.shipyard = Some(ShipyardJob { kind: ShipKind::SpyProbe, quantity: 4, finish: 1500 });
    reconcile(&mut p, 10, 1500);
    assert_eq!(p.fleet.spy_probes, 4);
    assert_eq!(p.shipyard, None);
}

#[test]
fn elapsed_expedition_cooldown_is_cleared() {
    let mut p = home(1000);
    p.expedition_end = Some(1200);
    reconcile(&mut p, 10, 1500);
    assert_eq!(p.expedition_end, None);

    let mut q = home(1000);
    q.expedition_end = Some(9999);
    reconcile(&mut q, 10, 1500);
    assert_eq!(q.expedition_end, Some(9999));
}

#[test]
fn clear_report_only_clears_the_report() {
    let mut p = home(1000);
    let before = p.clone();
    p.clear_report();
    assert_eq!(p, before);
}

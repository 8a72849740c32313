use stellar_core::economy::{
    energy_consumption, get_build_time, get_light_hunter_stats, get_missile_launcher_stats,
    get_plasma_turret_stats, get_ship_production_time, get_spy_probe_stats, get_upgrade_cost,
    parse_build_kind, parse_ship_kind, production_per_hour, ship_unit_cost, BuildKind,
    ResourceType, ShipKind,
};
use stellar_core::errors::GameError;

#[test]
fn production_of_level_one_metal_mine_at_speed_ten() {
    // 30 * 1 * 1.1 * 10 = 330 per hour
    assert_eq!(production_per_hour(ResourceType::Metal, 1, 10), 330);
}

#[test]
fn production_of_level_zero_mine_is_zero() {
    assert_eq!(production_per_hour(ResourceType::Metal, 0, 500), 0);
    assert_eq!(production_per_hour(ResourceType::Crystal, 0, 1), 0);
    assert_eq!(production_per_hour(ResourceType::Deuterium, 0, 42), 0);
}

#[test]
fn production_bases_differ_per_resource() {
    // base * level * 11/10 at level 1, speed 1
    assert_eq!(production_per_hour(ResourceType::Metal, 1, 1), 33);
    assert_eq!(production_per_hour(ResourceType::Crystal, 1, 1), 22);
    assert_eq!(production_per_hour(ResourceType::Deuterium, 1, 1), 11);
}

#[test]
fn upgrade_cost_of_first_levels() {
    let c = get_upgrade_cost(BuildKind::MetalMine, 1);
    assert_eq!((c.metal, c.crystal, c.deuterium), (60, 15, 0));
    let c = get_upgrade_cost(BuildKind::CrystalMine, 1);
    assert_eq!((c.metal, c.crystal, c.deuterium), (48, 24, 0));
    let c = get_upgrade_cost(BuildKind::DeuteriumMine, 1);
    assert_eq!((c.metal, c.crystal, c.deuterium), (225, 75, 0));
    let c = get_upgrade_cost(BuildKind::EnergyTech, 1);
    assert_eq!((c.metal, c.crystal, c.deuterium), (0, 800, 400));
    let c = get_upgrade_cost(BuildKind::Research, 1);
    assert_eq!((c.metal, c.crystal, c.deuterium), (200, 400, 200));
    let c = get_upgrade_cost(BuildKind::Laser, 1);
    assert_eq!((c.metal, c.crystal, c.deuterium), (1500, 500, 100));
    let c = get_upgrade_cost(BuildKind::Espionage, 1);
    assert_eq!((c.metal, c.crystal, c.deuterium), (200, 1000, 200));
}

#[test]
fn upgrade_cost_grows_by_its_factor() {
    // metal mine: factor 3/2
    let c = get_upgrade_cost(BuildKind::MetalMine, 2);
    assert_eq!((c.metal, c.crystal), (90, 22));
    // crystal mine: factor 8/5
    let c = get_upgrade_cost(BuildKind::CrystalMine, 2);
    assert_eq!((c.metal, c.crystal), (76, 38));
    // technologies: factor 2
    let c = get_upgrade_cost(BuildKind::EnergyTech, 3);
    assert_eq!((c.metal, c.crystal, c.deuterium), (0, 3200, 1600));
}

#[test]
fn upgrade_cost_strictly_dominates_level_over_level() {
    let kinds = [
        BuildKind::MetalMine,
        BuildKind::CrystalMine,
        BuildKind::DeuteriumMine,
        BuildKind::EnergyTech,
        BuildKind::Research,
        BuildKind::Laser,
        BuildKind::Espionage,
    ];
    for kind in kinds {
        for level in 1..20u64 {
            let lo = get_upgrade_cost(kind, level);
            let hi = get_upgrade_cost(kind, level + 1);
            assert!(hi.crystal > lo.crystal, "{kind:?} crystal at level {level}");
            if matches!(kind, BuildKind::EnergyTech) {
                assert_eq!(hi.metal, 0);
            } else {
                assert!(hi.metal > lo.metal, "{kind:?} metal at level {level}");
            }
        }
    }
}

#[test]
fn build_time_has_a_two_second_floor() {
    // (60 + 15) * 36 / (25 * 500) = 0 seconds, floored to 2
    assert_eq!(get_build_time(60, 15, 500), 2);
}

#[test]
fn build_time_scales_with_cost_and_speed() {
    // (2500 + 0) * 36 / (25 * 1) = 3600 seconds: one reference hour
    assert_eq!(get_build_time(2500, 0, 1), 3600);
    // ten times the speed, a tenth of the time
    assert_eq!(get_build_time(2500, 0, 10), 360);
}

#[test]
fn ship_production_time_has_a_one_second_floor() {
    assert_eq!(get_ship_production_time(10, 500), 1);
    assert_eq!(get_ship_production_time(100, 20), 100);
}

#[test]
fn unit_prices_match_the_stat_getters() {
    assert_eq!(get_light_hunter_stats(), (3000, 1000));
    assert_eq!(get_spy_probe_stats(), (0, 1000));
    assert_eq!(get_missile_launcher_stats(), (2000, 0));
    assert_eq!(get_plasma_turret_stats(), (50000, 50000));
    let c = ship_unit_cost(ShipKind::LightHunter);
    assert_eq!((c.metal, c.crystal), (3000, 1000));
    let c = ship_unit_cost(ShipKind::Cruiser);
    assert_eq!((c.metal, c.crystal), (20000, 7000));
    let c = ship_unit_cost(ShipKind::Recycler);
    assert_eq!((c.metal, c.crystal), (10000, 6000));
}

#[test]
fn energy_consumption_sums_the_three_mines() {
    // 10*1*1.1 + 10*1*1.1 + 20*1*1.1 = 11 + 11 + 22
    assert_eq!(energy_consumption(1, 1, 1), 44);
    assert_eq!(energy_consumption(0, 0, 0), 0);
}

#[test]
fn build_kind_codes_parse() {
    assert_eq!(parse_build_kind(&"metal".to_string()), Ok(BuildKind::MetalMine));
    assert_eq!(parse_build_kind(&"crystal".to_string()), Ok(BuildKind::CrystalMine));
    assert_eq!(parse_build_kind(&"deuterium".to_string()), Ok(BuildKind::DeuteriumMine));
    assert_eq!(parse_build_kind(&"energy_tech".to_string()), Ok(BuildKind::EnergyTech));
    assert_eq!(parse_build_kind(&"research".to_string()), Ok(BuildKind::Research));
    assert_eq!(parse_build_kind(&"laser".to_string()), Ok(BuildKind::Laser));
    assert_eq!(parse_build_kind(&"espionage".to_string()), Ok(BuildKind::Espionage));
    assert_eq!(parse_build_kind(&"shield".to_string()), Err(GameError::InvalidKind));
}

#[test]
fn ship_kind_codes_parse() {
    assert_eq!(parse_ship_kind(&"light_hunter".to_string()), Ok(ShipKind::LightHunter));
    assert_eq!(parse_ship_kind(&"cruiser".to_string()), Ok(ShipKind::Cruiser));
    assert_eq!(parse_ship_kind(&"recycler".to_string()), Ok(ShipKind::Recycler));
    assert_eq!(parse_ship_kind(&"spy_probe".to_string()), Ok(ShipKind::SpyProbe));
    assert_eq!(parse_ship_kind(&"missile_launcher".to_string()), Ok(ShipKind::MissileLauncher));
    assert_eq!(parse_ship_kind(&"plasma_turret".to_string()), Ok(ShipKind::PlasmaTurret));
    assert_eq!(parse_ship_kind(&"death_star".to_string()), Err(GameError::InvalidKind));
}

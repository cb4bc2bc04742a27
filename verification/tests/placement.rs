use void_sim::kinds::{BodyType, PlaceMode};
use void_sim::placement::{orbit_kind, placement_plan, system_orbits, system_plan, SWARM_SIZE};

#[test]
fn system_orbit_radii() {
    assert_eq!(system_orbits(), vec![90, 140, 200, 275, 360]);
}

#[test]
fn giants_orbit_beyond_radius_300() {
    assert_eq!(orbit_kind(275), BodyType::Planet);
    assert_eq!(orbit_kind(300), BodyType::Planet);
    assert_eq!(orbit_kind(301), BodyType::Heavy);
    assert_eq!(orbit_kind(360), BodyType::Heavy);
}

#[test]
fn solar_system_layout() {
    let plan = system_plan(20);
    assert_eq!(plan.len(), 26);
    assert_eq!(plan[0], BodyType::Star);
    assert_eq!(&plan[1..6], &[BodyType::Planet, BodyType::Planet, BodyType::Planet, BodyType::Planet, BodyType::Heavy]);
    assert!(plan[6..].iter().all(|k| *k == BodyType::Asteroid));
    assert_eq!(plan.iter().filter(|k| **k == BodyType::Star).count(), 1);
    assert_eq!(system_plan(25).len(), 31);
    assert_eq!(system_plan(0).len(), 6);
}

#[test]
fn single_body_placements() {
    assert_eq!(placement_plan(PlaceMode::Planet, 20), vec![BodyType::Planet]);
    assert_eq!(placement_plan(PlaceMode::Heavy, 20), vec![BodyType::Heavy]);
    assert_eq!(placement_plan(PlaceMode::Star, 20), vec![BodyType::Star]);
}

#[test]
fn asteroid_swarm_and_system_placements() {
    assert_eq!(SWARM_SIZE, 15);
    assert_eq!(placement_plan(PlaceMode::Asteroids, 20), vec![BodyType::Asteroid; 15]);
    assert_eq!(placement_plan(PlaceMode::SolarSystem, 20), system_plan(20));
}

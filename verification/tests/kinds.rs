use void_sim::kinds::{palette_slot, BodyType, PlaceMode, PALETTE_LEN};

#[test]
fn place_mode_names() {
    assert_eq!(PlaceMode::Planet.name(), "PLANET");
    assert_eq!(PlaceMode::Heavy.name(), "GIANT");
    assert_eq!(PlaceMode::Star.name(), "STAR");
    assert_eq!(PlaceMode::Asteroids.name(), "ASTEROIDS");
    assert_eq!(PlaceMode::SolarSystem.name(), "SOLAR SYSTEM");
}

#[test]
fn stars_and_asteroids_have_no_palette_slot() {
    assert_eq!(palette_slot(BodyType::Star), None);
    assert_eq!(palette_slot(BodyType::Asteroid), None);
}

#[test]
fn planets_and_giants_draw_palette_slots_in_range() {
    let mut seen = [false; PALETTE_LEN];
    for _ in 0..2000 {
        for t in [BodyType::Planet, BodyType::Heavy] {
            let slot = palette_slot(t).expect("planets and giants get a slot");
            assert!(slot < PALETTE_LEN);
            seen[slot] = true;
        }
    }
    // the draws are spread over the palette, not stuck at a bound
    assert!(seen.iter().filter(|s| **s).count() > 1);
}

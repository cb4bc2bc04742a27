use void_sim::controls::{BtnAction, Command, Controls, Key};
use void_sim::kinds::PlaceMode;

const ALL: [BtnAction; 15] = [
    BtnAction::SetPlanet,
    BtnAction::SetHeavy,
    BtnAction::SetStar,
    BtnAction::SetAsteroids,
    BtnAction::SetSolarSystem,
    BtnAction::ToggleTrails,
    BtnAction::ToggleOrbits,
    BtnAction::ToggleGrid,
    BtnAction::TogglePause,
    BtnAction::Recenter,
    BtnAction::Clear,
    BtnAction::Explode,
    BtnAction::NewSystem,
    BtnAction::TimeSlower,
    BtnAction::TimeFaster,
];

#[test]
fn starting_controls() {
    let c = Controls::new();
    assert_eq!(c.place_mode, PlaceMode::Planet);
    assert!(!c.paused);
    assert!(c.show_trails);
    assert!(c.show_orbits);
    assert!(!c.show_grid);
}

#[test]
fn setting_modes_flashes_their_names() {
    let cases = [
        (BtnAction::SetPlanet, PlaceMode::Planet),
        (BtnAction::SetHeavy, PlaceMode::Heavy),
        (BtnAction::SetStar, PlaceMode::Star),
        (BtnAction::SetAsteroids, PlaceMode::Asteroids),
        (BtnAction::SetSolarSystem, PlaceMode::SolarSystem),
    ];
    for (a, m) in cases {
        let mut c = Controls::new();
        c.show_grid = true;
        let r = c.apply(a);
        assert_eq!(c.place_mode, m);
        assert!(c.show_grid && c.show_trails && c.show_orbits && !c.paused);
        assert_eq!(r.command, Command::Nothing);
        assert_eq!(r.flash, Some(m.name()));
        // choosing it again changes nothing
        let before = c;
        c.apply(a);
        assert_eq!(c, before);
    }
}

#[test]
fn switches_flash_their_new_position() {
    let mut c = Controls::new();
    assert_eq!(c.apply(BtnAction::ToggleTrails).flash, Some("TRAILS OFF"));
    assert!(!c.show_trails);
    assert_eq!(c.apply(BtnAction::ToggleTrails).flash, Some("TRAILS ON"));
    assert!(c.show_trails);
    assert_eq!(c.apply(BtnAction::ToggleOrbits).flash, Some("ORBITS OFF"));
    assert_eq!(c.apply(BtnAction::ToggleOrbits).flash, Some("ORBITS ON"));
    assert_eq!(c.apply(BtnAction::ToggleGrid).flash, Some("GRID ON"));
    assert!(c.show_grid);
    assert_eq!(c.apply(BtnAction::ToggleGrid).flash, Some("GRID OFF"));
    assert_eq!(c.apply(BtnAction::TogglePause).flash, Some("PAUSED"));
    assert!(c.paused);
    assert_eq!(c.apply(BtnAction::TogglePause).flash, Some("RUNNING"));
    assert!(!c.paused);
}

#[test]
fn toggling_twice_restores_controls() {
    for a in [
        BtnAction::ToggleTrails,
        BtnAction::ToggleOrbits,
        BtnAction::ToggleGrid,
        BtnAction::TogglePause,
    ] {
        let mut c = Controls::new();
        c.place_mode = PlaceMode::Star;
        let before = c;
        c.apply(a);
        assert_ne!(c, before);
        c.apply(a);
        assert_eq!(c, before);
    }
}

#[test]
fn commands_leave_controls_and_flash() {
    let cases = [
        (BtnAction::Recenter, Command::Recenter, Some("CENTERED")),
        (BtnAction::Clear, Command::Clear, Some("CLEARED")),
        (BtnAction::Explode, Command::Explode, Some("BOOM")),
        (BtnAction::NewSystem, Command::NewSystem, Some("NEW SYSTEM")),
        (BtnAction::TimeSlower, Command::TimeSlower, None),
        (BtnAction::TimeFaster, Command::TimeFaster, None),
    ];
    for (a, cmd, flash) in cases {
        let mut c = Controls::new();
        let before = c;
        let r = c.apply(a);
        assert_eq!(r.command, cmd);
        assert_eq!(r.flash, flash);
        assert_eq!(c, before);
    }
}

#[test]
fn panel_rows_and_labels() {
    let c = Controls::new();
    let rows = c.button_rows();
    let labels: Vec<Vec<&str>> = rows.iter().map(|r| r.iter().map(|b| b.label).collect()).collect();
    assert_eq!(
        labels,
        vec![
            vec!["PLANET", "GIANT", "STAR", "ASTEROIDS", "SOLAR SYS"],
            vec!["TRAILS", "ORBITS", "GRID", "PAUSE", "SLOWER", "FASTER"],
            vec!["CENTER", "CLEAR", "EXPLODE", "NEW SYS"],
        ]
    );
    let lit: Vec<&str> = rows.iter().flatten().filter(|b| b.active).map(|b| b.label).collect();
    assert_eq!(lit, vec!["PLANET", "TRAILS", "ORBITS"]);
}

#[test]
fn panel_lists_each_action_once() {
    let rows = Controls::new().button_rows();
    for a in ALL {
        let n = rows.iter().flatten().filter(|b| b.action == a).count();
        assert_eq!(n, 1);
    }
}

#[test]
fn exactly_one_mode_is_lit() {
    for a in &ALL[0..5] {
        let mut c = Controls::new();
        c.apply(*a);
        let rows = c.button_rows();
        let lit: Vec<BtnAction> = rows[0].iter().filter(|b| b.active).map(|b| b.action).collect();
        assert_eq!(lit, vec![*a]);
    }
}

#[test]
fn pressing_a_switch_flips_its_light() {
    let mut c = Controls::new();
    c.apply(BtnAction::TogglePause);
    c.apply(BtnAction::ToggleGrid);
    c.apply(BtnAction::ToggleTrails);
    let rows = c.button_rows();
    let lit: Vec<&str> = rows.iter().flatten().filter(|b| b.active).map(|b| b.label).collect();
    assert_eq!(lit, vec!["PLANET", "ORBITS", "GRID", "PAUSE"]);
    assert!(!c.is_active(BtnAction::Explode));
    assert_eq!(BtnAction::SetSolarSystem.label(), "SOLAR SYS");
}

#[test]
fn key_bindings() {
    let keys = Key::all();
    assert_eq!(keys.len(), 15);
    let actions: Vec<BtnAction> = keys.iter().map(|k| k.action()).collect();
    assert_eq!(
        actions,
        vec![
            BtnAction::SetPlanet,
            BtnAction::SetHeavy,
            BtnAction::SetStar,
            BtnAction::SetAsteroids,
            BtnAction::SetSolarSystem,
            BtnAction::ToggleTrails,
            BtnAction::ToggleGrid,
            BtnAction::ToggleOrbits,
            BtnAction::TogglePause,
            BtnAction::Recenter,
            BtnAction::Clear,
            BtnAction::TimeSlower,
            BtnAction::TimeFaster,
            BtnAction::Explode,
            BtnAction::NewSystem,
        ]
    );
    for a in ALL {
        assert_eq!(actions.iter().filter(|x| **x == a).count(), 1);
    }
    assert_eq!(Key::Space.action(), BtnAction::NewSystem);
    assert_eq!(Key::LeftBracket.action(), BtnAction::TimeSlower);
}

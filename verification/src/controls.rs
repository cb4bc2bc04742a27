use vstd::prelude::*;

use crate::kinds::PlaceMode;

verus! {

/// Everything the control panel and the keyboard can ask for.
#[derive(Clone, Copy, Debug, PartialEq, Eq, Structural)]
pub enum BtnAction {
    SetPlanet,
    SetHeavy,
    SetStar,
    SetAsteroids,
    SetSolarSystem,
    ToggleTrails,
    ToggleOrbits,
    ToggleGrid,
    TogglePause,
    Recenter,
    Clear,
    Explode,
    NewSystem,
    TimeSlower,
    TimeFaster,
}

/// The work an action hands to the world outside the control state.
#[derive(Clone, Copy, Debug, PartialEq, Eq, Structural)]
pub enum Command {
    /// The action only changed the control state.
    Nothing,
    Recenter,
    Clear,
    Explode,
    NewSystem,
    TimeSlower,
    TimeFaster,
}

/// The discrete settings of the simulator's user interface.
#[derive(Clone, Copy, Debug, PartialEq, Eq, Structural)]
pub struct Controls {
    pub place_mode: PlaceMode,
    pub paused: bool,
    pub show_trails: bool,
    pub show_orbits: bool,
    pub show_grid: bool,
}

/// What the interface does in answer to an action: a command for the
/// world, and the text to flash on screen. The time-scale commands flash
/// the new time scale, which the caller formats, so they carry no text.
#[derive(Clone, Copy, Debug)]
pub struct Reaction {
    pub command: Command,
    pub flash: Option<&'static str>,
}

/// One button of the control panel.
#[derive(Clone, Copy, Debug)]
pub struct ButtonSpec {
    pub label: &'static str,
    pub action: BtnAction,
    pub active: bool,
}

/// The placement mode that an action selects, if it selects one.
pub open spec fn spec_mode_of(a: BtnAction) -> Option<PlaceMode> {
    match a {
        BtnAction::SetPlanet => Some(PlaceMode::Planet),
        BtnAction::SetHeavy => Some(PlaceMode::Heavy),
        BtnAction::SetStar => Some(PlaceMode::Star),
        BtnAction::SetAsteroids => Some(PlaceMode::Asteroids),
        BtnAction::SetSolarSystem => Some(PlaceMode::SolarSystem),
        _ => None,
    }
}

/// Whether an action flips one of the four switches.
pub open spec fn spec_is_toggle(a: BtnAction) -> bool {
    a == BtnAction::ToggleTrails || a == BtnAction::ToggleOrbits || a == BtnAction::ToggleGrid
        || a == BtnAction::TogglePause
}

/// The command an action hands on.
pub open spec fn spec_command(a: BtnAction) -> Command {
    match a {
        BtnAction::Recenter => Command::Recenter,
        BtnAction::Clear => Command::Clear,
        BtnAction::Explode => Command::Explode,
        BtnAction::NewSystem => Command::NewSystem,
        BtnAction::TimeSlower => Command::TimeSlower,
        BtnAction::TimeFaster => Command::TimeFaster,
        _ => Command::Nothing,
    }
}

/// The control state after an action.
pub open spec fn spec_next(c: Controls, a: BtnAction) -> Controls {
    match a {
        BtnAction::SetPlanet => Controls { place_mode: PlaceMode::Planet, ..c },
        BtnAction::SetHeavy => Controls { place_mode: PlaceMode::Heavy, ..c },
        BtnAction::SetStar => Controls { place_mode: PlaceMode::Star, ..c },
        BtnAction::SetAsteroids => Controls { place_mode: PlaceMode::Asteroids, ..c },
        BtnAction::SetSolarSystem => Controls { place_mode: PlaceMode::SolarSystem, ..c },
        BtnAction::ToggleTrails => Controls { show_trails: !c.show_trails, ..c },
        BtnAction::ToggleOrbits => Controls { show_orbits: !c.show_orbits, ..c },
        BtnAction::ToggleGrid => Controls { show_grid: !c.show_grid, ..c },
        BtnAction::TogglePause => Controls { paused: !c.paused, ..c },
        _ => c,
    }
}

/// The text flashed after an action, given the control state after it.
pub open spec fn spec_flash(after: Controls, a: BtnAction) -> Option<Seq<char>> {
    match a {
        BtnAction::SetPlanet => Some("PLANET"@),
        BtnAction::SetHeavy => Some("GIANT"@),
        BtnAction::SetStar => Some("STAR"@),
        BtnAction::SetAsteroids => Some("ASTEROIDS"@),
        BtnAction::SetSolarSystem => Some("SOLAR SYSTEM"@),
        BtnAction::ToggleTrails => Some(
            if after.show_trails {
                "TRAILS ON"@
            } else {
                "TRAILS OFF"@
            },
        ),
        BtnAction::ToggleOrbits => Some(
            if after.show_orbits {
                "ORBITS ON"@
            } else {
                "ORBITS OFF"@
            },
        ),
        BtnAction::ToggleGrid => Some(
            if after.show_grid {
                "GRID ON"@
            } else {
                "GRID OFF"@
            },
        ),
        BtnAction::TogglePause => Some(
            if after.paused {
                "PAUSED"@
            } else {
                "RUNNING"@
            },
        ),
        BtnAction::Recenter => Some("CENTERED"@),
        BtnAction::Clear => Some("CLEARED"@),
        BtnAction::Explode => Some("BOOM"@),
        BtnAction::NewSystem => Some("NEW SYSTEM"@),
        BtnAction::TimeSlower => None,
        BtnAction::TimeFaster => None,
    }
}

/// The label of an action's button.
pub open spec fn spec_label(a: BtnAction) -> Seq<char> {
    match a {
        BtnAction::SetPlanet => "PLANET"@,
        BtnAction::SetHeavy => "GIANT"@,
        BtnAction::SetStar => "STAR"@,
        BtnAction::SetAsteroids => "ASTEROIDS"@,
        BtnAction::SetSolarSystem => "SOLAR SYS"@,
        BtnAction::ToggleTrails => "TRAILS"@,
        BtnAction::ToggleOrbits => "ORBITS"@,
        BtnAction::ToggleGrid => "GRID"@,
        BtnAction::TogglePause => "PAUSE"@,
        BtnAction::TimeSlower => "SLOWER"@,
        BtnAction::TimeFaster => "FASTER"@,
        BtnAction::Recenter => "CENTER"@,
        BtnAction::Clear => "CLEAR"@,
        BtnAction::Explode => "EXPLODE"@,
        BtnAction::NewSystem => "NEW SYS"@,
    }
}

/// Whether an action's button is lit in a control state: the button of the
/// current placement mode and the buttons of the switches that are on.
pub open spec fn spec_active(c: Controls, a: BtnAction) -> bool {
    match spec_mode_of(a) {
        Some(m) => c.place_mode == m,
        None => match a {
            BtnAction::ToggleTrails => c.show_trails,
            BtnAction::ToggleOrbits => c.show_orbits,
            BtnAction::ToggleGrid => c.show_grid,
            BtnAction::TogglePause => c.paused,
            _ => false,
        },
    }
}

/// The actions of the panel, row by row from the top.
pub open spec fn spec_rows() -> Seq<Seq<BtnAction>> {
    seq![
        seq![
            BtnAction::SetPlanet,
            BtnAction::SetHeavy,
            BtnAction::SetStar,
            BtnAction::SetAsteroids,
            BtnAction::SetSolarSystem,
        ],
        seq![
            BtnAction::ToggleTrails,
            BtnAction::ToggleOrbits,
            BtnAction::ToggleGrid,
            BtnAction::TogglePause,
            BtnAction::TimeSlower,
            BtnAction::TimeFaster,
        ],
        seq![BtnAction::Recenter, BtnAction::Clear, BtnAction::Explode, BtnAction::NewSystem],
    ]
}


/// The keys the simulator answers to.
#[derive(Clone, Copy, Debug, PartialEq, Eq, Structural)]
pub enum Key {
    Digit1,
    Digit2,
    Digit3,
    Digit4,
    Digit5,
    T,
    G,
    O,
    F,
    H,
    C,
    LeftBracket,
    RightBracket,
    X,
    Space,
}

/// The action a key asks for.
pub open spec fn spec_key_action(k: Key) -> BtnAction {
    match k {
        Key::Digit1 => BtnAction::SetPlanet,
        Key::Digit2 => BtnAction::SetHeavy,
        Key::Digit3 => BtnAction::SetStar,
        Key::Digit4 => BtnAction::SetAsteroids,
        Key::Digit5 => BtnAction::SetSolarSystem,
        Key::T => BtnAction::ToggleTrails,
        Key::G => BtnAction::ToggleGrid,
        Key::O => BtnAction::ToggleOrbits,
        Key::F => BtnAction::TogglePause,
        Key::H => BtnAction::Recenter,
        Key::C => BtnAction::Clear,
        Key::LeftBracket => BtnAction::TimeSlower,
        Key::RightBracket => BtnAction::TimeFaster,
        Key::X => BtnAction::Explode,
        Key::Space => BtnAction::NewSystem,
    }
}

/// The keys in the order they are read each frame; several keys pressed in
/// one frame act in this order.
pub open spec fn spec_key_order() -> Seq<Key> {
    seq![
        Key::Digit1,
        Key::Digit2,
        Key::Digit3,
        Key::Digit4,
        Key::Digit5,
        Key::T,
        Key::G,
        Key::O,
        Key::F,
        Key::H,
        Key::C,
        Key::LeftBracket,
        Key::RightBracket,
        Key::X,
        Key::Space,
    ]
}

impl Key {
    /// The action this key asks for.
    pub fn action(&self) -> (a: BtnAction)
        ensures
            a == spec_key_action(*self),
    {
        match self {
            Key::Digit1 => BtnAction::SetPlanet,
            Key::Digit2 => BtnAction::SetHeavy,
            Key::Digit3 => BtnAction::SetStar,
            Key::Digit4 => BtnAction::SetAsteroids,
            Key::Digit5 => BtnAction::SetSolarSystem,
            Key::T => BtnAction::ToggleTrails,
            Key::G => BtnAction::ToggleGrid,
            Key::O => BtnAction::ToggleOrbits,
            Key::F => BtnAction::TogglePause,
            Key::H => BtnAction::Recenter,
            Key::C => BtnAction::Clear,
            Key::LeftBracket => BtnAction::TimeSlower,
            Key::RightBracket => BtnAction::TimeFaster,
            Key::X => BtnAction::Explode,
            Key::Space => BtnAction::NewSystem,
        }
    }

    /// Every key, in the order they are read each frame.
    pub fn all() -> (keys: Vec<Key>)
        ensures
            keys@ == spec_key_order(),
    {
        let mut keys: Vec<Key> = Vec::new();
        keys.push(Key::Digit1);
        keys.push(Key::Digit2);
        keys.push(Key::Digit3);
        keys.push(Key::Digit4);
        keys.push(Key::Digit5);
        keys.push(Key::T);
        keys.push(Key::G);
        keys.push(Key::O);
        keys.push(Key::F);
        keys.push(Key::H);
        keys.push(Key::C);
        keys.push(Key::LeftBracket);
        keys.push(Key::RightBracket);
        keys.push(Key::X);
        keys.push(Key::Space);
        assert(keys@ =~= spec_key_order());
        keys
    }
}

/// Every action has exactly one key, and every key is read once a frame.
pub proof fn law_each_action_has_one_key(a: BtnAction)
    ensures
        exists|k: Key| #[trigger] spec_key_action(k) == a,
        forall|k1: Key, k2: Key|
            #[trigger] spec_key_action(k1) == a && #[trigger] spec_key_action(k2) == a ==> k1 == k2,
        forall|k: Key| #[trigger] spec_key_order().contains(k),
        forall|p: int, q: int|
            0 <= p < q < spec_key_order().len() ==> #[trigger] spec_key_order()[p]
                != #[trigger] spec_key_order()[q],
{
    let k = match a {
        BtnAction::SetPlanet => Key::Digit1,
        BtnAction::SetHeavy => Key::Digit2,
        BtnAction::SetStar => Key::Digit3,
        BtnAction::SetAsteroids => Key::Digit4,
        BtnAction::SetSolarSystem => Key::Digit5,
        BtnAction::ToggleTrails => Key::T,
        BtnAction::ToggleGrid => Key::G,
        BtnAction::ToggleOrbits => Key::O,
        BtnAction::TogglePause => Key::F,
        BtnAction::Recenter => Key::H,
        BtnAction::Clear => Key::C,
        BtnAction::TimeSlower => Key::LeftBracket,
        BtnAction::TimeFaster => Key::RightBracket,
        BtnAction::Explode => Key::X,
        BtnAction::NewSystem => Key::Space,
    };
    assert(spec_key_action(k) == a);
    let order = spec_key_order();
    assert forall|k: Key| #[trigger] order.contains(k) by {
        let idx: int = match k {
            Key::Digit1 => 0,
            Key::Digit2 => 1,
            Key::Digit3 => 2,
            Key::Digit4 => 3,
            Key::Digit5 => 4,
            Key::T => 5,
            Key::G => 6,
            Key::O => 7,
            Key::F => 8,
            Key::H => 9,
            Key::C => 10,
            Key::LeftBracket => 11,
            Key::RightBracket => 12,
            Key::X => 13,
            Key::Space => 14,
        };
        assert(order[idx] == k);
    }
    assert forall|p: int, q: int| 0 <= p < q < order.len() implies #[trigger] order[p]
        != #[trigger] order[q] by {
        assert(spec_key_action(order[p]) != spec_key_action(order[q]));
    }
}

impl BtnAction {
    /// The label of this action's button.
    pub fn label(&self) -> (s: &'static str)
        ensures
            s@ == spec_label(*self),
    {
        match self {
            BtnAction::SetPlanet => "PLANET",
            BtnAction::SetHeavy => "GIANT",
            BtnAction::SetStar => "STAR",
            BtnAction::SetAsteroids => "ASTEROIDS",
            BtnAction::SetSolarSystem => "SOLAR SYS",
            BtnAction::ToggleTrails => "TRAILS",
            BtnAction::ToggleOrbits => "ORBITS",
            BtnAction::ToggleGrid => "GRID",
            BtnAction::TogglePause => "PAUSE",
            BtnAction::TimeSlower => "SLOWER",
            BtnAction::TimeFaster => "FASTER",
            BtnAction::Recenter => "CENTER",
            BtnAction::Clear => "CLEAR",
            BtnAction::Explode => "EXPLODE",
            BtnAction::NewSystem => "NEW SYS",
        }
    }
}

impl Controls {
    /// The settings the simulator starts with: placing planets, running,
    /// trails and predicted orbits shown, no grid.
    pub fn new() -> (c: Controls)
        ensures
            c.place_mode == PlaceMode::Planet,
            !c.paused,
            c.show_trails,
            c.show_orbits,
            !c.show_grid,
    {
        Controls {
            place_mode: PlaceMode::Planet,
            paused: false,
            show_trails: true,
            show_orbits: true,
            show_grid: false,
        }
    }

    /// Whether the button of `a` is lit.
    pub fn is_active(&self, a: BtnAction) -> (b: bool)
        ensures
            b == spec_active(*self, a),
    {
        match a {
            BtnAction::SetPlanet => self.place_mode == PlaceMode::Planet,
            BtnAction::SetHeavy => self.place_mode == PlaceMode::Heavy,
            BtnAction::SetStar => self.place_mode == PlaceMode::Star,
            BtnAction::SetAsteroids => self.place_mode == PlaceMode::Asteroids,
            BtnAction::SetSolarSystem => self.place_mode == PlaceMode::SolarSystem,
            BtnAction::ToggleTrails => self.show_trails,
            BtnAction::ToggleOrbits => self.show_orbits,
            BtnAction::ToggleGrid => self.show_grid,
            BtnAction::TogglePause => self.paused,
            _ => false,
        }
    }

    /// Carries out an action on the control state and says what else is
    /// to be done and what to flash.
    pub fn apply(&mut self, a: BtnAction) -> (r: Reaction)
        ensures
            *final(self) == spec_next(*old(self), a),
            r.command == spec_command(a),
            r.flash.is_some() == spec_flash(*final(self), a).is_some(),
            r.flash matches Some(s) ==> s@ == spec_flash(*final(self), a).unwrap(),
    {
        match a {
            BtnAction::SetPlanet => {
                self.place_mode = PlaceMode::Planet;
                Reaction { command: Command::Nothing, flash: Some(self.place_mode.name()) }
            },
            BtnAction::SetHeavy => {
                self.place_mode = PlaceMode::Heavy;
                Reaction { command: Command::Nothing, flash: Some(self.place_mode.name()) }
            },
            BtnAction::SetStar => {
                self.place_mode = PlaceMode::Star;
                Reaction { command: Command::Nothing, flash: Some(self.place_mode.name()) }
            },
            BtnAction::SetAsteroids => {
                self.place_mode = PlaceMode::Asteroids;
                Reaction { command: Command::Nothing, flash: Some(self.place_mode.name()) }
            },
            BtnAction::SetSolarSystem => {
                self.place_mode = PlaceMode::SolarSystem;
                Reaction { command: Command::Nothing, flash: Some(self.place_mode.name()) }
            },
            BtnAction::ToggleTrails => {
                self.show_trails = !self.show_trails;
                let text = if self.show_trails {
                    "TRAILS ON"
                } else {
                    "TRAILS OFF"
                };
                Reaction { command: Command::Nothing, flash: Some(text) }
            },
            BtnAction::ToggleOrbits => {
                self.show_orbits = !self.show_orbits;
                let text = if self.show_orbits {
                    "ORBITS ON"
                } else {
                    "ORBITS OFF"
                };
                Reaction { command: Command::Nothing, flash: Some(text) }
            },
            BtnAction::ToggleGrid => {
                self.show_grid = !self.show_grid;
                let text = if self.show_grid {
                    "GRID ON"
                } else {
                    "GRID OFF"
                };
                Reaction { command: Command::Nothing, flash: Some(text) }
            },
            BtnAction::TogglePause => {
                self.paused = !self.paused;
                let text = if self.paused {
                    "PAUSED"
                } else {
                    "RUNNING"
                };
                Reaction { command: Command::Nothing, flash: Some(text) }
            },
            BtnAction::Recenter => Reaction { command: Command::Recenter, flash: Some("CENTERED") },
            BtnAction::Clear => Reaction { command: Command::Clear, flash: Some("CLEARED") },
            BtnAction::Explode => Reaction { command: Command::Explode, flash: Some("BOOM") },
            BtnAction::NewSystem => Reaction { command: Command::NewSystem, flash: Some("NEW SYSTEM") },
            BtnAction::TimeSlower => Reaction { command: Command::TimeSlower, flash: None },
            BtnAction::TimeFaster => Reaction { command: Command::TimeFaster, flash: None },
        }
    }

    /// The button of one action in this control state.
    pub fn button(&self, a: BtnAction) -> (b: ButtonSpec)
        ensures
            b.action == a,
            b.label@ == spec_label(a),
            b.active == spec_active(*self, a),
    {
        ButtonSpec { label: a.label(), action: a, active: self.is_active(a) }
    }

    /// The buttons of the control panel, row by row from the top, each
    /// row from the left, lit as `spec_active` says.
    pub fn button_rows(&self) -> (rows: Vec<Vec<ButtonSpec>>)
        ensures
            rows@.len() == spec_rows().len(),
            forall|r: int|
                0 <= r < rows@.len() ==> #[trigger] rows@[r]@.len() == spec_rows()[r].len(),
            forall|r: int, k: int|
                0 <= r < rows@.len() && 0 <= k < rows@[r]@.len() ==> {
                    let b = #[trigger] rows@[r]@[k];
                    &&& b.action == spec_rows()[r][k]
                    &&& b.label@ == spec_label(b.action)
                    &&& b.active == spec_active(*self, b.action)
                },
    {
        let mut modes: Vec<ButtonSpec> = Vec::new();
        modes.push(self.button(BtnAction::SetPlanet));
        modes.push(self.button(BtnAction::SetHeavy));
        modes.push(self.button(BtnAction::SetStar));
        modes.push(self.button(BtnAction::SetAsteroids));
        modes.push(self.button(BtnAction::SetSolarSystem));
        let mut switches: Vec<ButtonSpec> = Vec::new();
        switches.push(self.button(BtnAction::ToggleTrails));
        switches.push(self.button(BtnAction::ToggleOrbits));
        switches.push(self.button(BtnAction::ToggleGrid));
        switches.push(self.button(BtnAction::TogglePause));
        switches.push(self.button(BtnAction::TimeSlower));
        switches.push(self.button(BtnAction::TimeFaster));
        let mut world: Vec<ButtonSpec> = Vec::new();
        world.push(self.button(BtnAction::Recenter));
        world.push(self.button(BtnAction::Clear));
        world.push(self.button(BtnAction::Explode));
        world.push(self.button(BtnAction::NewSystem));
        let mut rows: Vec<Vec<ButtonSpec>> = Vec::new();
        rows.push(modes);
        rows.push(switches);
        rows.push(world);
        rows
    }
}


/// Flipping a switch twice leaves the controls as they were.
pub proof fn law_toggle_twice_restores(c: Controls, a: BtnAction)
    requires
        spec_is_toggle(a),
    ensures
        spec_next(spec_next(c, a), a) == c,
{
}

/// Choosing a placement mode sets that mode and changes nothing else,
/// choosing it again changes nothing more, and the flash shows the mode's
/// name.
pub proof fn law_set_mode(c: Controls, a: BtnAction)
    requires
        spec_mode_of(a) is Some,
    ensures
        spec_next(c, a) == (Controls { place_mode: spec_mode_of(a).unwrap(), ..c }),
        spec_next(spec_next(c, a), a) == spec_next(c, a),
        spec_flash(spec_next(c, a), a) == Some(spec_mode_of(a).unwrap().spec_name()),
{
}

/// Two presses of a switch in a row flash different texts: the flash
/// says which way the switch went.
pub proof fn law_switch_flash_tells_position(c: Controls, a: BtnAction)
    requires
        spec_is_toggle(a),
    ensures
        spec_flash(spec_next(c, a), a) is Some,
        spec_flash(spec_next(c, a), a) != spec_flash(spec_next(spec_next(c, a), a), a),
{
    reveal_strlit("TRAILS ON");
    reveal_strlit("TRAILS OFF");
    reveal_strlit("ORBITS ON");
    reveal_strlit("ORBITS OFF");
    reveal_strlit("GRID ON");
    reveal_strlit("GRID OFF");
    reveal_strlit("PAUSED");
    reveal_strlit("RUNNING");
    let f1 = spec_flash(spec_next(c, a), a).unwrap();
    let f2 = spec_flash(spec_next(spec_next(c, a), a), a).unwrap();
    assert(f1.len() != f2.len() || f1[0] != f2[0]);
}

/// An action either changes the control state and commands nothing, or
/// commands the world and leaves the control state as it was.
pub proof fn law_commands_keep_controls(c: Controls, a: BtnAction)
    ensures
        (spec_command(a) == Command::Nothing) == (spec_mode_of(a) is Some || spec_is_toggle(a)),
        spec_command(a) != Command::Nothing ==> spec_next(c, a) == c,
        spec_command(a) == Command::Nothing ==> spec_next(c, a) != c || spec_mode_of(a) == Some(
            c.place_mode,
        ),
{
}

/// Every action has exactly one button on the panel.
pub proof fn law_panel_lists_each_action_once(a: BtnAction)
    ensures
        exists|r: int, k: int|
            0 <= r < spec_rows().len() && 0 <= k < spec_rows()[r].len() && #[trigger] spec_rows()[r][k]
                == a,
        forall|r1: int, k1: int, r2: int, k2: int|
            0 <= r1 < spec_rows().len() && 0 <= k1 < spec_rows()[r1].len() && 0 <= r2
                < spec_rows().len() && 0 <= k2 < spec_rows()[r2].len() && #[trigger] spec_rows()[r1][k1]
                == a && #[trigger] spec_rows()[r2][k2] == a ==> r1 == r2 && k1 == k2,
{
    let rows = spec_rows();
    assert(rows.len() == 3);
    assert(rows[0].len() == 5 && rows[1].len() == 6 && rows[2].len() == 4);
    let (r, k): (int, int) = match a {
        BtnAction::SetPlanet => (0, 0),
        BtnAction::SetHeavy => (0, 1),
        BtnAction::SetStar => (0, 2),
        BtnAction::SetAsteroids => (0, 3),
        BtnAction::SetSolarSystem => (0, 4),
        BtnAction::ToggleTrails => (1, 0),
        BtnAction::ToggleOrbits => (1, 1),
        BtnAction::ToggleGrid => (1, 2),
        BtnAction::TogglePause => (1, 3),
        BtnAction::TimeSlower => (1, 4),
        BtnAction::TimeFaster => (1, 5),
        BtnAction::Recenter => (2, 0),
        BtnAction::Clear => (2, 1),
        BtnAction::Explode => (2, 2),
        BtnAction::NewSystem => (2, 3),
    };
    assert(rows[r][k] == a);
    assert forall|r1: int, k1: int, r2: int, k2: int|
        0 <= r1 < rows.len() && 0 <= k1 < rows[r1].len() && 0 <= r2 < rows.len() && 0 <= k2
            < rows[r2].len() && #[trigger] rows[r1][k1] == a && #[trigger] rows[r2][k2] == a implies r1
        == r2 && k1 == k2 by {
        assert(rows[0][0] == BtnAction::SetPlanet);
        assert(rows[0][1] == BtnAction::SetHeavy);
        assert(rows[0][2] == BtnAction::SetStar);
        assert(rows[0][3] == BtnAction::SetAsteroids);
        assert(rows[0][4] == BtnAction::SetSolarSystem);
        assert(rows[1][0] == BtnAction::ToggleTrails);
        assert(rows[1][1] == BtnAction::ToggleOrbits);
        assert(rows[1][2] == BtnAction::ToggleGrid);
        assert(rows[1][3] == BtnAction::TogglePause);
        assert(rows[1][4] == BtnAction::TimeSlower);
        assert(rows[1][5] == BtnAction::TimeFaster);
        assert(rows[2][0] == BtnAction::Recenter);
        assert(rows[2][1] == BtnAction::Clear);
        assert(rows[2][2] == BtnAction::Explode);
        assert(rows[2][3] == BtnAction::NewSystem);
    }
}

/// The top row holds the placement modes, and exactly one of them is lit:
/// the current one.
pub proof fn law_one_mode_lit(c: Controls)
    ensures
        forall|k: int|
            0 <= k < spec_rows()[0].len() ==> (#[trigger] spec_mode_of(spec_rows()[0][k])) is Some,
        forall|k: int|
            0 <= k < spec_rows()[0].len() ==> spec_active(c, #[trigger] spec_rows()[0][k]) == (
            spec_mode_of(spec_rows()[0][k]) == Some(c.place_mode)),
        exists|k: int| 0 <= k < spec_rows()[0].len() && spec_active(c, #[trigger] spec_rows()[0][k]),
        forall|k1: int, k2: int|
            0 <= k1 < spec_rows()[0].len() && 0 <= k2 < spec_rows()[0].len() && spec_active(
                c,
                #[trigger] spec_rows()[0][k1],
            ) && spec_active(c, #[trigger] spec_rows()[0][k2]) ==> k1 == k2,
{
    let row = spec_rows()[0];
    assert(row.len() == 5);
    assert(row[0] == BtnAction::SetPlanet);
    assert(row[1] == BtnAction::SetHeavy);
    assert(row[2] == BtnAction::SetStar);
    assert(row[3] == BtnAction::SetAsteroids);
    assert(row[4] == BtnAction::SetSolarSystem);
    let k: int = match c.place_mode {
        PlaceMode::Planet => 0,
        PlaceMode::Heavy => 1,
        PlaceMode::Star => 2,
        PlaceMode::Asteroids => 3,
        PlaceMode::SolarSystem => 4,
    };
    assert(spec_active(c, row[k]));
}

/// Pressing a mode button lights it; pressing a switch's button turns its
/// light the other way; the command buttons are never lit.
pub proof fn law_press_lights_button(c: Controls, a: BtnAction)
    ensures
        spec_mode_of(a) is Some ==> spec_active(spec_next(c, a), a),
        spec_is_toggle(a) ==> spec_active(spec_next(c, a), a) == !spec_active(c, a),
        spec_command(a) != Command::Nothing ==> !spec_active(c, a),
{
}


/// Each action changes exactly what it names: a switch flips its own
/// setting and nothing else, a mode button sets the mode and nothing else,
/// and the command buttons change no setting.
pub proof fn law_actions_change_only_their_setting(c: Controls)
    ensures
        ({
            let d = spec_next(c, BtnAction::ToggleTrails);
            d.show_trails == !c.show_trails && d.show_orbits == c.show_orbits && d.show_grid
                == c.show_grid && d.paused == c.paused && d.place_mode == c.place_mode
        }),
        ({
            let d = spec_next(c, BtnAction::ToggleOrbits);
            d.show_orbits == !c.show_orbits && d.show_trails == c.show_trails && d.show_grid
                == c.show_grid && d.paused == c.paused && d.place_mode == c.place_mode
        }),
        ({
            let d = spec_next(c, BtnAction::ToggleGrid);
            d.show_grid == !c.show_grid && d.show_trails == c.show_trails && d.show_orbits
                == c.show_orbits && d.paused == c.paused && d.place_mode == c.place_mode
        }),
        ({
            let d = spec_next(c, BtnAction::TogglePause);
            d.paused == !c.paused && d.show_trails == c.show_trails && d.show_orbits
                == c.show_orbits && d.show_grid == c.show_grid && d.place_mode == c.place_mode
        }),
        spec_next(c, BtnAction::SetPlanet) == (Controls { place_mode: PlaceMode::Planet, ..c }),
        spec_next(c, BtnAction::SetHeavy) == (Controls { place_mode: PlaceMode::Heavy, ..c }),
        spec_next(c, BtnAction::SetStar) == (Controls { place_mode: PlaceMode::Star, ..c }),
        spec_next(c, BtnAction::SetAsteroids) == (Controls { place_mode: PlaceMode::Asteroids, ..c }),
        spec_next(c, BtnAction::SetSolarSystem) == (Controls {
            place_mode: PlaceMode::SolarSystem,
            ..c
        }),
        spec_next(c, BtnAction::Recenter) == c,
        spec_next(c, BtnAction::Clear) == c,
        spec_next(c, BtnAction::Explode) == c,
        spec_next(c, BtnAction::NewSystem) == c,
        spec_next(c, BtnAction::TimeSlower) == c,
        spec_next(c, BtnAction::TimeFaster) == c,
{
}

/// A switch's button is lit exactly when its switch is on, a mode button
/// exactly when its mode is chosen, whatever the other settings; command
/// buttons are never lit.
pub proof fn law_lights_follow_settings(c: Controls)
    ensures
        spec_active(c, BtnAction::ToggleTrails) == c.show_trails,
        spec_active(c, BtnAction::ToggleOrbits) == c.show_orbits,
        spec_active(c, BtnAction::ToggleGrid) == c.show_grid,
        spec_active(c, BtnAction::TogglePause) == c.paused,
        spec_active(c, BtnAction::SetPlanet) == (c.place_mode == PlaceMode::Planet),
        spec_active(c, BtnAction::SetHeavy) == (c.place_mode == PlaceMode::Heavy),
        spec_active(c, BtnAction::SetStar) == (c.place_mode == PlaceMode::Star),
        spec_active(c, BtnAction::SetAsteroids) == (c.place_mode == PlaceMode::Asteroids),
        spec_active(c, BtnAction::SetSolarSystem) == (c.place_mode == PlaceMode::SolarSystem),
        !spec_active(c, BtnAction::Recenter),
        !spec_active(c, BtnAction::Clear),
        !spec_active(c, BtnAction::Explode),
        !spec_active(c, BtnAction::NewSystem),
        !spec_active(c, BtnAction::TimeSlower),
        !spec_active(c, BtnAction::TimeFaster),
{
}

/// A switch's flash tells that switch's new position and depends on
/// nothing else: two states with the switch in the same position flash
/// the same text, "ON" when on and "OFF" when off (the pause switch says
/// "PAUSED" and "RUNNING").
pub proof fn law_switch_flash_follows_its_switch(after: Controls, other: Controls)
    ensures
        spec_flash(after, BtnAction::ToggleTrails) == Some(
            if after.show_trails {
                "TRAILS ON"@
            } else {
                "TRAILS OFF"@
            },
        ),
        spec_flash(after, BtnAction::ToggleOrbits) == Some(
            if after.show_orbits {
                "ORBITS ON"@
            } else {
                "ORBITS OFF"@
            },
        ),
        spec_flash(after, BtnAction::ToggleGrid) == Some(
            if after.show_grid {
                "GRID ON"@
            } else {
                "GRID OFF"@
            },
        ),
        spec_flash(after, BtnAction::TogglePause) == Some(
            if after.paused {
                "PAUSED"@
            } else {
                "RUNNING"@
            },
        ),
        after.show_trails == other.show_trails ==> spec_flash(after, BtnAction::ToggleTrails)
            == spec_flash(other, BtnAction::ToggleTrails),
        after.show_orbits == other.show_orbits ==> spec_flash(after, BtnAction::ToggleOrbits)
            == spec_flash(other, BtnAction::ToggleOrbits),
        after.show_grid == other.show_grid ==> spec_flash(after, BtnAction::ToggleGrid)
            == spec_flash(other, BtnAction::ToggleGrid),
        after.paused == other.paused ==> spec_flash(after, BtnAction::TogglePause) == spec_flash(
            other,
            BtnAction::TogglePause,
        ),
{
}

/// What every other action flashes and commands, whatever the settings.
pub proof fn law_flash_and_command_of_actions(after: Controls)
    ensures
        spec_flash(after, BtnAction::SetPlanet) == Some("PLANET"@),
        spec_flash(after, BtnAction::SetHeavy) == Some("GIANT"@),
        spec_flash(after, BtnAction::SetStar) == Some("STAR"@),
        spec_flash(after, BtnAction::SetAsteroids) == Some("ASTEROIDS"@),
        spec_flash(after, BtnAction::SetSolarSystem) == Some("SOLAR SYSTEM"@),
        spec_flash(after, BtnAction::Recenter) == Some("CENTERED"@),
        spec_flash(after, BtnAction::Clear) == Some("CLEARED"@),
        spec_flash(after, BtnAction::Explode) == Some("BOOM"@),
        spec_flash(after, BtnAction::NewSystem) == Some("NEW SYSTEM"@),
        spec_flash(after, BtnAction::TimeSlower) is None,
        spec_flash(after, BtnAction::TimeFaster) is None,
        spec_command(BtnAction::Recenter) == Command::Recenter,
        spec_command(BtnAction::Clear) == Command::Clear,
        spec_command(BtnAction::Explode) == Command::Explode,
        spec_command(BtnAction::NewSystem) == Command::NewSystem,
        spec_command(BtnAction::TimeSlower) == Command::TimeSlower,
        spec_command(BtnAction::TimeFaster) == Command::TimeFaster,
        PlaceMode::Planet.spec_name() == "PLANET"@,
        PlaceMode::Heavy.spec_name() == "GIANT"@,
        PlaceMode::Star.spec_name() == "STAR"@,
        PlaceMode::Asteroids.spec_name() == "ASTEROIDS"@,
        PlaceMode::SolarSystem.spec_name() == "SOLAR SYSTEM"@,
{
}

/// The keys and what they do, as the help line lists them.
pub proof fn law_key_bindings()
    ensures
        spec_key_action(Key::Digit1) == BtnAction::SetPlanet,
        spec_key_action(Key::Digit2) == BtnAction::SetHeavy,
        spec_key_action(Key::Digit3) == BtnAction::SetStar,
        spec_key_action(Key::Digit4) == BtnAction::SetAsteroids,
        spec_key_action(Key::Digit5) == BtnAction::SetSolarSystem,
        spec_key_action(Key::T) == BtnAction::ToggleTrails,
        spec_key_action(Key::O) == BtnAction::ToggleOrbits,
        spec_key_action(Key::G) == BtnAction::ToggleGrid,
        spec_key_action(Key::F) == BtnAction::TogglePause,
        spec_key_action(Key::LeftBracket) == BtnAction::TimeSlower,
        spec_key_action(Key::RightBracket) == BtnAction::TimeFaster,
        spec_key_action(Key::H) == BtnAction::Recenter,
        spec_key_action(Key::C) == BtnAction::Clear,
        spec_key_action(Key::X) == BtnAction::Explode,
        spec_key_action(Key::Space) == BtnAction::NewSystem,
{
}

/// The panel's rows and labels, from the top left.
pub proof fn law_panel_layout()
    ensures
        spec_rows() == seq![
            seq![
                BtnAction::SetPlanet,
                BtnAction::SetHeavy,
                BtnAction::SetStar,
                BtnAction::SetAsteroids,
                BtnAction::SetSolarSystem,
            ],
            seq![
                BtnAction::ToggleTrails,
                BtnAction::ToggleOrbits,
                BtnAction::ToggleGrid,
                BtnAction::TogglePause,
                BtnAction::TimeSlower,
                BtnAction::TimeFaster,
            ],
            seq![BtnAction::Recenter, BtnAction::Clear, BtnAction::Explode, BtnAction::NewSystem],
        ],
        spec_label(BtnAction::SetPlanet) == "PLANET"@,
        spec_label(BtnAction::SetHeavy) == "GIANT"@,
        spec_label(BtnAction::SetStar) == "STAR"@,
        spec_label(BtnAction::SetAsteroids) == "ASTEROIDS"@,
        spec_label(BtnAction::SetSolarSystem) == "SOLAR SYS"@,
        spec_label(BtnAction::ToggleTrails) == "TRAILS"@,
        spec_label(BtnAction::ToggleOrbits) == "ORBITS"@,
        spec_label(BtnAction::ToggleGrid) == "GRID"@,
        spec_label(BtnAction::TogglePause) == "PAUSE"@,
        spec_label(BtnAction::TimeSlower) == "SLOWER"@,
        spec_label(BtnAction::TimeFaster) == "FASTER"@,
        spec_label(BtnAction::Recenter) == "CENTER"@,
        spec_label(BtnAction::Clear) == "CLEAR"@,
        spec_label(BtnAction::Explode) == "EXPLODE"@,
        spec_label(BtnAction::NewSystem) == "NEW SYS"@,
{
}

} // verus!

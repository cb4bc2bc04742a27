use vstd::prelude::*;

use crate::kinds::{BodyType, PlaceMode};

verus! {

/// How many asteroids one drag in asteroid mode scatters.
pub const SWARM_SIZE: usize = 15;

/// The orbit radii of a new solar system's planets, innermost first.
pub open spec fn spec_system_orbits() -> Seq<u32> {
    seq![90u32, 140u32, 200u32, 275u32, 360u32]
}

/// The kind of the body on an orbit: giants beyond radius 300, planets
/// within.
pub open spec fn spec_orbit_kind(radius: u32) -> BodyType {
    if radius > 300 {
        BodyType::Heavy
    } else {
        BodyType::Planet
    }
}

/// The kinds of the bodies a new solar system holds, in the order they are
/// made: the central star, one body per orbit from the inside out, then
/// the asteroid belt.
pub open spec fn spec_system_plan(asteroids: nat) -> Seq<BodyType> {
    seq![BodyType::Star] + spec_system_orbits().map_values(|r: u32| spec_orbit_kind(r)) + Seq::new(
        asteroids,
        |k: int| BodyType::Asteroid,
    )
}

/// The kinds of the bodies one placement adds, in the order they are made.
pub open spec fn spec_placement_plan(mode: PlaceMode, system_asteroids: nat) -> Seq<BodyType> {
    match mode {
        PlaceMode::Planet => seq![BodyType::Planet],
        PlaceMode::Heavy => seq![BodyType::Heavy],
        PlaceMode::Star => seq![BodyType::Star],
        PlaceMode::Asteroids => Seq::new(SWARM_SIZE as nat, |k: int| BodyType::Asteroid),
        PlaceMode::SolarSystem => spec_system_plan(system_asteroids),
    }
}

/// The orbit radii of a new solar system's planets, innermost first.
pub fn system_orbits() -> (radii: Vec<u32>)
    ensures
        radii@ == spec_system_orbits(),
{
    let mut radii: Vec<u32> = Vec::new();
    radii.push(90);
    radii.push(140);
    radii.push(200);
    radii.push(275);
    radii.push(360);
    assert(radii@ =~= spec_system_orbits());
    radii
}

/// The kind of the body on an orbit of the given radius.
pub fn orbit_kind(radius: u32) -> (kind: BodyType)
    ensures
        kind == spec_orbit_kind(radius),
{
    if radius > 300 {
        BodyType::Heavy
    } else {
        BodyType::Planet
    }
}

/// Pushes `count` asteroids onto a plan.
fn push_asteroids(plan: &mut Vec<BodyType>, count: usize)
    ensures
        final(plan)@ == old(plan)@ + Seq::new(count as nat, |k: int| BodyType::Asteroid),
{
    let ghost start = plan@;
    let mut k: usize = 0;
    while k < count
        invariant
            0 <= k <= count,
            plan@ == start + Seq::new(k as nat, |m: int| BodyType::Asteroid),
        decreases count - k,
    {
        plan.push(BodyType::Asteroid);
        k += 1;
        assert(plan@ =~= start + Seq::new(k as nat, |m: int| BodyType::Asteroid));
    }
}

/// The kinds of the bodies of a new solar system with `asteroids` belt
/// asteroids, in the order they are made.
pub fn system_plan(asteroids: usize) -> (plan: Vec<BodyType>)
    ensures
        plan@ == spec_system_plan(asteroids as nat),
{
    let radii = system_orbits();
    let mut plan: Vec<BodyType> = Vec::new();
    plan.push(BodyType::Star);
    let mut k: usize = 0;
    while k < radii.len()
        invariant
            radii@ == spec_system_orbits(),
            0 <= k <= radii@.len(),
            plan@ == seq![BodyType::Star] + radii@.take(k as int).map_values(
                |r: u32| spec_orbit_kind(r),
            ),
        decreases radii@.len() - k,
    {
        plan.push(orbit_kind(radii[k]));
        k += 1;
        assert(radii@.take(k as int) =~= radii@.take(k - 1).push(radii@[k - 1]));
        assert(plan@ =~= seq![BodyType::Star] + radii@.take(k as int).map_values(
            |r: u32| spec_orbit_kind(r),
        ));
    }
    assert(radii@.take(radii@.len() as int) =~= radii@);
    push_asteroids(&mut plan, asteroids);
    plan
}

/// The kinds of the bodies one drag in mode `mode` adds, in the order they
/// are made; a solar system brings `system_asteroids` belt asteroids.
pub fn placement_plan(mode: PlaceMode, system_asteroids: usize) -> (plan: Vec<BodyType>)
    ensures
        plan@ == spec_placement_plan(mode, system_asteroids as nat),
{
    match mode {
        PlaceMode::Planet => {
            let mut plan: Vec<BodyType> = Vec::new();
            plan.push(BodyType::Planet);
            assert(plan@ =~= seq![BodyType::Planet]);
            plan
        },
        PlaceMode::Heavy => {
            let mut plan: Vec<BodyType> = Vec::new();
            plan.push(BodyType::Heavy);
            assert(plan@ =~= seq![BodyType::Heavy]);
            plan
        },
        PlaceMode::Star => {
            let mut plan: Vec<BodyType> = Vec::new();
            plan.push(BodyType::Star);
            assert(plan@ =~= seq![BodyType::Star]);
            plan
        },
        PlaceMode::Asteroids => {
            let mut plan: Vec<BodyType> = Vec::new();
            push_asteroids(&mut plan, SWARM_SIZE);
            assert(plan@ =~= Seq::new(SWARM_SIZE as nat, |k: int| BodyType::Asteroid));
            plan
        },
        PlaceMode::SolarSystem => system_plan(system_asteroids),
    }
}


/// The kind of body a mode places, for the modes that place one kind.
pub open spec fn spec_mode_kind(mode: PlaceMode) -> BodyType {
    match mode {
        PlaceMode::Planet => BodyType::Planet,
        PlaceMode::Heavy => BodyType::Heavy,
        PlaceMode::Star => BodyType::Star,
        _ => BodyType::Asteroid,
    }
}

/// A new solar system is one star first, four planets, one giant on the
/// outermost orbit, then exactly the asked number of asteroids; the star
/// is its only star.
pub proof fn law_system_layout(asteroids: nat)
    ensures
        spec_system_plan(asteroids).len() == 6 + asteroids,
        spec_system_plan(asteroids)[0] == BodyType::Star,
        forall|k: int| 1 <= k < 5 ==> #[trigger] spec_system_plan(asteroids)[k] == BodyType::Planet,
        spec_system_plan(asteroids)[5] == BodyType::Heavy,
        forall|k: int|
            6 <= k < 6 + asteroids ==> #[trigger] spec_system_plan(asteroids)[k] == BodyType::Asteroid,
        forall|k: int|
            0 < k < 6 + asteroids ==> #[trigger] spec_system_plan(asteroids)[k] != BodyType::Star,
{
    let orbits = spec_system_orbits().map_values(|r: u32| spec_orbit_kind(r));
    assert(orbits =~= seq![
        BodyType::Planet,
        BodyType::Planet,
        BodyType::Planet,
        BodyType::Planet,
        BodyType::Heavy,
    ]);
    let plan = spec_system_plan(asteroids);
    assert forall|k: int| 1 <= k < 5 implies #[trigger] plan[k] == BodyType::Planet by {
        assert(plan[k] == orbits[k - 1]);
    }
    assert(plan[5] == orbits[4]);
    assert forall|k: int| 6 <= k < 6 + asteroids implies #[trigger] plan[k] == BodyType::Asteroid by {
    }
    assert forall|k: int| 0 < k < 6 + asteroids implies #[trigger] plan[k] != BodyType::Star by {
        if k < 6 {
            assert(plan[k] == orbits[k - 1]);
        }
    }
}

/// Every placement adds at least one body. A planet, giant or star drag
/// adds exactly one body of that kind, an asteroid drag `SWARM_SIZE`
/// asteroids, and a solar-system drag six bodies more than its belt.
pub proof fn law_placement_counts(mode: PlaceMode, system_asteroids: nat)
    ensures
        spec_placement_plan(mode, system_asteroids).len() >= 1,
        mode != PlaceMode::SolarSystem ==> forall|k: int|
            0 <= k < spec_placement_plan(mode, system_asteroids).len() ==> #[trigger] spec_placement_plan(
                mode,
                system_asteroids,
            )[k] == spec_mode_kind(mode),
        (mode == PlaceMode::Planet || mode == PlaceMode::Heavy || mode == PlaceMode::Star)
            ==> spec_placement_plan(mode, system_asteroids).len() == 1,
        mode == PlaceMode::Asteroids ==> spec_placement_plan(mode, system_asteroids).len()
            == SWARM_SIZE,
        mode == PlaceMode::SolarSystem ==> spec_placement_plan(mode, system_asteroids).len() == 6
            + system_asteroids,
{
    law_system_layout(system_asteroids);
}


/// A new system's orbits are at radii 90, 140, 200, 275 and 360; an orbit
/// holds a giant exactly when its radius is beyond 300, else a planet; an
/// asteroid drag scatters fifteen asteroids.
pub proof fn law_orbits_and_swarm(radius: u32)
    ensures
        spec_system_orbits() == seq![90u32, 140u32, 200u32, 275u32, 360u32],
        (spec_orbit_kind(radius) == BodyType::Heavy) == (radius > 300),
        (spec_orbit_kind(radius) == BodyType::Planet) == (radius <= 300),
        SWARM_SIZE == 15,
{
}

} // verus!

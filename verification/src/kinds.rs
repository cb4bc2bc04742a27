use vstd::prelude::*;

verus! {

/// What a body is, which decides how it is drawn and how it collides.
#[derive(Clone, Copy, Debug, PartialEq, Eq, Structural)]
pub enum BodyType {
    Star,
    Heavy,
    Planet,
    Asteroid,
}

/// What a click-and-drag in the world places.
#[derive(Clone, Copy, Debug, PartialEq, Eq, Structural)]
pub enum PlaceMode {
    Planet,
    Heavy,
    Star,
    Asteroids,
    SolarSystem,
}


/// How many colour pairs planets and giants are drawn from.
pub const PALETTE_LEN: usize = 7;

/// Calls `macroquad::rand::gen_range` (quad-rand's global generator) with
/// `usize` bounds. Its source scales a 32-bit draw `k` to `low + (high -
/// low) * k / 2^32` in `f64` and truncates; with bounds up to 2^20 that
/// arithmetic is exact, so the result lies in `[low, high)`. Which value
/// comes depends on the generator's hidden state and is not stated.
#[verifier::external_body]
fn random_index(low: usize, high: usize) -> (r: usize)
    requires
        low < high,
        high <= 0x10_0000,
    ensures
        low <= r < high,
{
    macroquad::rand::gen_range(low, high)
}

/// Picks the colour slot of a new body. Stars and asteroids have colours
/// of their own and get no slot; planets and giants get a random entry of
/// the palette.
pub fn palette_slot(body_type: BodyType) -> (slot: Option<usize>)
    ensures
        PALETTE_LEN == 7,
        (slot is Some) == (body_type == BodyType::Heavy || body_type == BodyType::Planet),
        slot matches Some(i) ==> i < PALETTE_LEN,
{
    match body_type {
        BodyType::Heavy | BodyType::Planet => Some(random_index(0, PALETTE_LEN)),
        BodyType::Star | BodyType::Asteroid => None,
    }
}

impl PlaceMode {
    /// The text shown for a placement mode.
    pub open spec fn spec_name(self) -> Seq<char> {
        match self {
            PlaceMode::Planet => "PLANET"@,
            PlaceMode::Heavy => "GIANT"@,
            PlaceMode::Star => "STAR"@,
            PlaceMode::Asteroids => "ASTEROIDS"@,
            PlaceMode::SolarSystem => "SOLAR SYSTEM"@,
        }
    }

    /// The name of the mode, as the heads-up display and the flash show it.
    pub fn name(&self) -> (s: &'static str)
        ensures
            s@ == self.spec_name(),
    {
        match self {
            PlaceMode::Planet => "PLANET",
            PlaceMode::Heavy => "GIANT",
            PlaceMode::Star => "STAR",
            PlaceMode::Asteroids => "ASTEROIDS",
            PlaceMode::SolarSystem => "SOLAR SYSTEM",
        }
    }
}

} // verus!

use vstd::prelude::*;
use crate::random::random_below;

verus! {

/// The kinds of food; every kind but `Normal` has an effect when eaten.
#[derive(Clone, Copy, Debug, PartialEq, Eq, Structural)]
pub enum Powerup {
    Normal,
    Slowdown,
    Shorten,
    Feast,
}

/// A colour as red, green and blue intensities, each in percent.
#[derive(Clone, Copy, Debug, PartialEq, Eq, Structural)]
pub struct Rgb {
    pub r: u32,
    pub g: u32,
    pub b: u32,
}

/// Chances are drawn as a whole percentage in `0..ROLL_RANGE`.
pub const ROLL_RANGE: u32 = 100;

/// How likely a freshly rolled food is of the given kind, in percent.
pub open spec fn chance_of(p: Powerup) -> int {
    match p {
        Powerup::Normal => 80,
        Powerup::Shorten => 10,
        Powerup::Feast => 5,
        Powerup::Slowdown => 5,
    }
}

/// The kind that a roll in `0..ROLL_RANGE` selects: the thresholds are taken
/// cumulatively in the order Feast, Shorten, Slowdown, and the rest is Normal.
pub open spec fn powerup_of_roll(roll: int) -> Powerup {
    if roll < chance_of(Powerup::Feast) {
        Powerup::Feast
    } else if roll < chance_of(Powerup::Feast) + chance_of(Powerup::Shorten) {
        Powerup::Shorten
    } else if roll < chance_of(Powerup::Feast) + chance_of(Powerup::Shorten) + chance_of(
        Powerup::Slowdown,
    ) {
        Powerup::Slowdown
    } else {
        Powerup::Normal
    }
}

/// How many times slower the game ticks while the effect of eating this kind lasts.
pub open spec fn speed_of(p: Powerup) -> int {
    match p {
        Powerup::Slowdown => 2,
        _ => 1,
    }
}

/// Strength of the effect: ticks a slowdown lasts, segments a shortening
/// removes, foods a feast spawns.
pub open spec fn power_of(p: Powerup) -> int {
    match p {
        Powerup::Normal => 0,
        Powerup::Slowdown => 20,
        Powerup::Shorten => 1,
        Powerup::Feast => 2,
    }
}

impl Powerup {
    /// The colour food of this kind is drawn with.
    pub fn get_color(&self) -> (c: Rgb)
        ensures
            *self == Powerup::Normal ==> c == (Rgb { r: 90, g: 10, b: 10 }),
            *self == Powerup::Slowdown ==> c == (Rgb { r: 0, g: 0, b: 90 }),
            *self == Powerup::Shorten ==> c == (Rgb { r: 90, g: 90, b: 0 }),
            *self == Powerup::Feast ==> c == (Rgb { r: 0, g: 90, b: 0 }),
    {
        match self {
            Powerup::Normal => Rgb { r: 90, g: 10, b: 10 },
            Powerup::Slowdown => Rgb { r: 0, g: 0, b: 90 },
            Powerup::Shorten => Rgb { r: 90, g: 90, b: 0 },
            Powerup::Feast => Rgb { r: 0, g: 90, b: 0 },
        }
    }

    /// Chance of this kind, in percent.
    pub fn get_chance(&self) -> (r: u32)
        ensures
            r == chance_of(*self),
    {
        match self {
            Powerup::Normal => 80,
            Powerup::Shorten => 10,
            Powerup::Feast => 5,
            Powerup::Slowdown => 5,
        }
    }

    /// The kind selected by a roll, as `powerup_of_roll` states.
    pub fn chance_to_powerup(random_number: u32) -> (p: Powerup)
        ensures
            p == powerup_of_roll(random_number as int),
    {
        if random_number < Powerup::Feast.get_chance() {
            Powerup::Feast
        } else if random_number < Powerup::Feast.get_chance() + Powerup::Shorten.get_chance() {
            Powerup::Shorten
        } else if random_number < Powerup::Feast.get_chance() + Powerup::Shorten.get_chance()
            + Powerup::Slowdown.get_chance() {
            Powerup::Slowdown
        } else {
            Powerup::Normal
        }
    }

    /// Rolls a kind at random, with the chances of `chance_of`.
    pub fn get_random_powerup() -> (p: Powerup)
        ensures
            exists|roll: int| 0 <= roll < ROLL_RANGE && p == powerup_of_roll(roll),
    {
        let roll = random_below(ROLL_RANGE as usize) as u32;
        Powerup::chance_to_powerup(roll)
    }

    /// Slowdown factor of this kind.
    pub fn speed(&self) -> (r: u32)
        ensures
            r == speed_of(*self),
    {
        match self {
            Powerup::Slowdown => 2,
            _ => 1,
        }
    }

    /// Strength of this kind's effect.
    pub fn power(&self) -> (r: u32)
        ensures
            r == power_of(*self),
    {
        match self {
            Powerup::Normal => 0,
            Powerup::Slowdown => 20,
            Powerup::Shorten => 1,
            Powerup::Feast => 2,
        }
    }
}

} // verus!

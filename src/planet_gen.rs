use vstd::prelude::*;

use crate::enums::PlanetType;

verus! {

/// Where a rocky planet stands relative to its star's habitable zone, by the ratio of
/// its sun distance to the habitable radius.
#[derive(Clone, Copy, Debug, PartialEq, Eq, Structural)]
pub enum Zone {
    Hot,
    Temperate,
    Cold,
}

/// Whether a rocky planet becomes an ocean world: on a star other than the birth star
/// when the habitability draw passed, and always for the first moon in the birth system.
pub open spec fn becomes_ocean(
    star_index: int,
    orbit_around: int,
    orbit_index: int,
    habitable_roll: bool,
) -> bool {
    (habitable_roll && star_index > 0) || (orbit_around > 0 && orbit_index == 1 && star_index
        == 0)
}

/// The provisional type of a planet. A gas giant is `Gas`; an ocean world is `Ocean`;
/// otherwise a hot planet is volcanic when the hazard draw passed, a cold one icy when it
/// passed, and the rest desert.
pub open spec fn planet_class(
    gas_giant: bool,
    star_index: int,
    orbit_around: int,
    orbit_index: int,
    habitable_roll: bool,
    zone: Zone,
    hazard_roll: bool,
) -> PlanetType {
    if gas_giant {
        PlanetType::Gas
    } else if becomes_ocean(star_index, orbit_around, orbit_index, habitable_roll) {
        PlanetType::Ocean
    } else {
        match zone {
            Zone::Hot => if hazard_roll {
                PlanetType::Vocano
            } else {
                PlanetType::Desert
            },
            Zone::Temperate => PlanetType::Desert,
            Zone::Cold => if hazard_roll {
                PlanetType::Ice
            } else {
                PlanetType::Desert
            },
        }
    }
}

/// Classifies a planet and charges the system's habitable budget for each ocean world.
/// `habitable_roll` is whether the habitability draw beat the planet's habitability
/// threshold; `hazard_roll` whether the second draw reached the zone's threshold.
pub fn classify_planet(
    gas_giant: bool,
    star_index: usize,
    orbit_around: i32,
    orbit_index: i32,
    habitable_roll: bool,
    zone: Zone,
    hazard_roll: bool,
    habitable_count: &mut i32,
) -> (r: PlanetType)
    requires
        *old(habitable_count) < i32::MAX,
    ensures
        r == planet_class(
            gas_giant,
            star_index as int,
            orbit_around as int,
            orbit_index as int,
            habitable_roll,
            zone,
            hazard_roll,
        ),
        *final(habitable_count) == *old(habitable_count) + if r == PlanetType::Ocean {
            1int
        } else {
            0int
        },
{
    if gas_giant {
        PlanetType::Gas
    } else if (habitable_roll && star_index > 0) || (orbit_around > 0 && orbit_index == 1
        && star_index == 0) {
        *habitable_count += 1;
        PlanetType::Ocean
    } else {
        match zone {
            Zone::Hot => if hazard_roll {
                PlanetType::Vocano
            } else {
                PlanetType::Desert
            },
            Zone::Temperate => PlanetType::Desert,
            Zone::Cold => if hazard_roll {
                PlanetType::Ice
            } else {
                PlanetType::Desert
            },
        }
    }
}

/// How a planet's rotation follows its orbit, from the rotation draw: locked to the
/// orbital period, or to a half or a quarter of it, or free.
#[derive(Clone, Copy, Debug, PartialEq, Eq, Structural)]
pub enum RotationLock {
    Free,
    Full,
    Half,
    Quarter,
}

/// Only an inner rocky planet on a direct orbit (slot 4 or below) takes the lock that
/// its rotation draw gave; every other planet rotates freely.
pub open spec fn rotation_lock_spec(
    orbit_around: int,
    orbit_index: int,
    gas_giant: bool,
    drawn: RotationLock,
) -> RotationLock {
    if orbit_around == 0 && orbit_index <= 4 && !gas_giant {
        drawn
    } else {
        RotationLock::Free
    }
}

pub fn rotation_lock(orbit_around: i32, orbit_index: i32, gas_giant: bool, drawn: RotationLock) -> (r:
    RotationLock)
    ensures
        r == rotation_lock_spec(orbit_around as int, orbit_index as int, gas_giant, drawn),
{
    if orbit_around == 0 && orbit_index <= 4 && !gas_giant {
        drawn
    } else {
        RotationLock::Free
    }
}

} // verus!

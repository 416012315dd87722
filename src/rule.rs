use vstd::prelude::*;

use crate::enums::PlanetType;
use crate::planet_count::RulePlanetCount;
use crate::satellite_count::RuleSatelliteCount;

verus! {

/// A comparison of a count against thresholds; `Between` is inclusive at both ends.
#[derive(Clone, Copy, Debug, PartialEq, Eq, Structural)]
pub enum Condition {
    Eq(u64),
    Neq(u64),
    Lt(u64),
    Lte(u64),
    Gt(u64),
    Gte(u64),
    Between(u64, u64),
}

pub open spec fn condition_holds(c: Condition, v: int) -> bool {
    match c {
        Condition::Eq(t) => v == t,
        Condition::Neq(t) => v != t,
        Condition::Lt(t) => v < t,
        Condition::Lte(t) => v <= t,
        Condition::Gt(t) => v > t,
        Condition::Gte(t) => v >= t,
        Condition::Between(lo, hi) => lo <= v && v <= hi,
    }
}

impl Condition {
    /// Whether the count `v` meets the condition.
    pub fn eval(&self, v: usize) -> (r: bool)
        ensures
            r == condition_holds(*self, v as int),
    {
        let x = v as u64;
        match self {
            Condition::Eq(t) => x == *t,
            Condition::Neq(t) => x != *t,
            Condition::Lt(t) => x < *t,
            Condition::Lte(t) => x <= *t,
            Condition::Gt(t) => x > *t,
            Condition::Gte(t) => x >= *t,
            Condition::Between(lo, hi) => *lo <= x && x <= *hi,
        }
    }
}

/// What the rules read of a generated planet.
#[derive(Clone, Copy, Debug, PartialEq, Eq, Structural)]
pub struct PlanetSummary {
    /// Id of the planet this one orbits, or 0 for a planet orbiting its star.
    pub orbit_around: i32,
    pub planet_type: PlanetType,
}

impl PlanetSummary {
    pub fn is_gas_giant(&self) -> (r: bool)
        ensures
            r == (self.planet_type == PlanetType::Gas),
    {
        self.planet_type == PlanetType::Gas
    }
}

/// The planets and moons generated for one star.
#[derive(Clone, Debug)]
pub struct StarPlanets {
    pub planets: Vec<PlanetSummary>,
}

/// The generated galaxy, one entry per star index.
#[derive(Clone, Debug)]
pub struct Galaxy {
    pub stars: Vec<StarPlanets>,
}

/// The progress of a regeneration pass: `known[i]` says whether star `i` is already known
/// to fail; only the stars below its length have been generated.
#[derive(Clone, Debug)]
pub struct Evaluation {
    pub known: Vec<bool>,
}

impl Evaluation {
    /// Number of stars that the pass covers.
    pub fn get_len(&self) -> (r: usize)
        ensures
            r == self.known.len(),
    {
        self.known.len()
    }

    pub fn is_known(&self, index: usize) -> (r: bool)
        requires
            index < self.known.len(),
        ensures
            r == self.known@[index as int],
    {
        self.known[index]
    }
}

/// The rules that constrain a generated galaxy.
#[derive(Clone, Debug)]
pub enum Rule {
    PlanetCount(RulePlanetCount),
    SatelliteCount(RuleSatelliteCount),
}

/// Priority of a rule that does not set its own.
pub const DEFAULT_PRIORITY: i32 = 0;

/// Priority of the planet-count rule.
pub const PLANET_COUNT_PRIORITY: i32 = 30;

pub open spec fn rule_priority(r: Rule) -> int {
    match r {
        Rule::PlanetCount(_) => PLANET_COUNT_PRIORITY as int,
        Rule::SatelliteCount(_) => DEFAULT_PRIORITY as int,
    }
}

impl Rule {
    /// Evaluation order: lower priorities run first.
    pub fn get_priority(&self) -> (r: i32)
        ensures
            r == rule_priority(*self),
    {
        match self {
            Rule::PlanetCount(rule) => rule.get_priority(),
            Rule::SatelliteCount(_) => DEFAULT_PRIORITY,
        }
    }

    /// The indices of stars not yet known to fail that break the rule on the final galaxy;
    /// a rule checked while planets are created reports none here.
    pub fn evaluate(&self, galaxy: &Galaxy, evaluation: &Evaluation) -> (r: Vec<usize>)
        ensures
            match *self {
                Rule::PlanetCount(rule) => r@ == rule.failing_stars(galaxy, evaluation),
                Rule::SatelliteCount(_) => r@.len() == 0,
            },
    {
        match self {
            Rule::PlanetCount(rule) => rule.evaluate(galaxy, evaluation),
            Rule::SatelliteCount(_) => Vec::new(),
        }
    }

    /// Checks the planets of one star as they are created: `Some(true)` where they pass,
    /// `Some(false)` where they fail, `None` for a rule that checks the final galaxy.
    pub fn on_planets_created(&mut self, planets: &Vec<PlanetSummary>) -> (r: Option<bool>)
        ensures
            match *old(self) {
                Rule::PlanetCount(_) => r is None && *final(self) == *old(self),
                Rule::SatelliteCount(rule) => *final(self) matches Rule::SatelliteCount(after)
                    && r == Some(condition_holds(rule.condition, moon_count(planets@) as int))
                    && after.evaluated && after.condition == rule.condition,
            },
    {
        match self {
            Rule::PlanetCount(_) => None,
            Rule::SatelliteCount(rule) => rule.on_planets_created(planets),
        }
    }

    /// Whether the rule holds a cached outcome.
    pub fn is_evaluated(&self) -> (r: bool)
        ensures
            r == (match *self {
                Rule::PlanetCount(_) => false,
                Rule::SatelliteCount(rule) => rule.evaluated,
            }),
    {
        match self {
            Rule::PlanetCount(_) => false,
            Rule::SatelliteCount(rule) => rule.is_evaluated(),
        }
    }

    /// Drops any cached outcome.
    pub fn reset(&mut self)
        ensures
            match *old(self) {
                Rule::PlanetCount(_) => *final(self) == *old(self),
                Rule::SatelliteCount(rule) => *final(self) matches Rule::SatelliteCount(after)
                    && !after.evaluated && after.condition == rule.condition,
            },
    {
        match self {
            Rule::PlanetCount(_) => {},
            Rule::SatelliteCount(rule) => rule.reset(),
        }
    }
}

/// Number of planets that orbit another planet.
pub open spec fn moon_count(planets: Seq<PlanetSummary>) -> nat
    decreases planets.len(),
{
    if planets.len() == 0 {
        0
    } else {
        moon_count(planets.drop_last()) + if planets.last().orbit_around != 0 {
            1nat
        } else {
            0nat
        }
    }
}

/// Number of planets that orbit their star directly, gas giants left out if asked.
pub open spec fn planet_count(planets: Seq<PlanetSummary>, exclude_giant: bool) -> nat
    decreases planets.len(),
{
    if planets.len() == 0 {
        0
    } else {
        let p = planets.last();
        planet_count(planets.drop_last(), exclude_giant) + if p.orbit_around == 0 && !(
        exclude_giant && p.planet_type == PlanetType::Gas) {
            1nat
        } else {
            0nat
        }
    }
}

} // verus!

use vstd::prelude::*;

use crate::rule::{condition_holds, moon_count, Condition, PlanetSummary};

verus! {

/// Asks every star for a number of moons, checked as each star's planets are created.
/// `evaluated` says whether an outcome has been given since the last reset.
#[derive(Clone, Copy, Debug, PartialEq, Eq, Structural)]
pub struct RuleSatelliteCount {
    pub evaluated: bool,
    pub condition: Condition,
}

fn count_moons(planets: &Vec<PlanetSummary>) -> (r: usize)
    ensures
        r == moon_count(planets@),
{
    let mut n: usize = 0;
    let mut i: usize = 0;
    while i < planets.len()
        invariant
            i <= planets.len(),
            n == moon_count(planets@.take(i as int)),
            n <= i,
        decreases planets.len() - i,
    {
        assert(planets@.take(i + 1).drop_last() =~= planets@.take(i as int));
        if planets[i].orbit_around != 0 {
            n += 1;
        }
        i += 1;
    }
    assert(planets@.take(planets.len() as int) =~= planets@);
    n
}

impl RuleSatelliteCount {
    /// Checks the moons among a star's planets: `Some(true)` where their number meets the
    /// condition, `Some(false)` where it does not; the outcome is marked as given.
    pub fn on_planets_created(&mut self, planets: &Vec<PlanetSummary>) -> (r: Option<bool>)
        ensures
            r == Some(condition_holds(old(self).condition, moon_count(planets@) as int)),
            final(self).evaluated,
            final(self).condition == old(self).condition,
    {
        self.evaluated = true;
        let count = count_moons(planets);
        Some(self.condition.eval(count))
    }

    pub fn is_evaluated(&self) -> (r: bool)
        ensures
            r == self.evaluated,
    {
        self.evaluated
    }

    pub fn reset(&mut self)
        ensures
            !final(self).evaluated,
            final(self).condition == old(self).condition,
    {
        self.evaluated = false;
    }
}

} // verus!

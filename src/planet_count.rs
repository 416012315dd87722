use vstd::prelude::*;

use crate::indices::indices_where;
use crate::rule::{
    condition_holds, planet_count, Condition, Evaluation, Galaxy, PlanetSummary,
    PLANET_COUNT_PRIORITY,
};

verus! {

/// Asks every star for a number of planets on direct orbits; with `exclude_giant`, gas
/// giants are not counted.
#[derive(Clone, Copy, Debug, PartialEq, Eq, Structural)]
pub struct RulePlanetCount {
    pub exclude_giant: bool,
    pub condition: Condition,
}

fn count_planets(planets: &Vec<PlanetSummary>, exclude_giant: bool) -> (r: usize)
    ensures
        r == planet_count(planets@, exclude_giant),
{
    let mut n: usize = 0;
    let mut i: usize = 0;
    while i < planets.len()
        invariant
            i <= planets.len(),
            n == planet_count(planets@.take(i as int), exclude_giant),
            n <= i,
        decreases planets.len() - i,
    {
        let p = &planets[i];
        assert(planets@.take(i + 1).drop_last() =~= planets@.take(i as int));
        if p.orbit_around == 0 && !(exclude_giant && p.is_gas_giant()) {
            n += 1;
        }
        i += 1;
    }
    assert(planets@.take(planets.len() as int) =~= planets@);
    n
}

impl RulePlanetCount {
    pub open spec fn fails_at(self, galaxy: &Galaxy, evaluation: &Evaluation) -> spec_fn(
        nat,
    ) -> bool {
        |i: nat|
            !evaluation.known@[i as int] && !condition_holds(
                self.condition,
                planet_count(galaxy.stars@[i as int].planets@, self.exclude_giant) as int,
            )
    }

    /// The stars within the pass, not already known to fail, whose planet count breaks
    /// the condition, in ascending order.
    pub open spec fn failing_stars(self, galaxy: &Galaxy, evaluation: &Evaluation) -> Seq<
        usize,
    > {
        let n = if galaxy.stars.len() < evaluation.known.len() {
            galaxy.stars.len()
        } else {
            evaluation.known.len()
        };
        indices_where(n as nat, self.fails_at(galaxy, evaluation))
    }

    pub fn get_priority(&self) -> (r: i32)
        ensures
            r == PLANET_COUNT_PRIORITY,
    {
        PLANET_COUNT_PRIORITY
    }

    /// The indices of the stars that break the rule.
    pub fn evaluate(&self, galaxy: &Galaxy, evaluation: &Evaluation) -> (r: Vec<usize>)
        ensures
            r@ == self.failing_stars(galaxy, evaluation),
    {
        let n = if galaxy.stars.len() < evaluation.get_len() {
            galaxy.stars.len()
        } else {
            evaluation.get_len()
        };
        let mut result: Vec<usize> = Vec::new();
        let mut index: usize = 0;
        while index < n
            invariant
                index <= n,
                n <= galaxy.stars.len(),
                n <= evaluation.known.len(),
                n == (if galaxy.stars.len() < evaluation.known.len() {
                    galaxy.stars.len()
                } else {
                    evaluation.known.len()
                }),
                result@ == indices_where(index as nat, self.fails_at(galaxy, evaluation)),
            decreases n - index,
        {
            if !evaluation.is_known(index) {
                let len = count_planets(&galaxy.stars[index].planets, self.exclude_giant);
                if !self.condition.eval(len) {
                    result.push(index);
                }
            }
            index += 1;
        }
        result
    }
}

} // verus!

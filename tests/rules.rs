use dsp_gen::enums::PlanetType;
use dsp_gen::planet_count::RulePlanetCount;
use dsp_gen::rule::{Condition, Evaluation, Galaxy, PlanetSummary, Rule, StarPlanets};
use dsp_gen::satellite_count::RuleSatelliteCount;

fn planet(orbit_around: i32, planet_type: PlanetType) -> PlanetSummary {
    PlanetSummary { orbit_around, planet_type }
}

fn system(direct: usize, giants: usize, moons: usize) -> StarPlanets {
    let mut planets = vec![];
    for _ in 0..direct {
        planets.push(planet(0, PlanetType::Desert));
    }
    for _ in 0..giants {
        planets.push(planet(0, PlanetType::Gas));
    }
    for _ in 0..moons {
        planets.push(planet(7, PlanetType::Ice));
    }
    StarPlanets { planets }
}

#[test]
fn planet_count_reports_star_with_too_few_planets() {
    let galaxy = Galaxy {
        stars: vec![system(4, 0, 1), system(5, 0, 0), system(4, 1, 2), system(3, 0, 2)],
    };
    let evaluation = Evaluation { known: vec![false; 4] };
    let rule = RulePlanetCount { exclude_giant: false, condition: Condition::Gte(4) };
    assert_eq!(rule.evaluate(&galaxy, &evaluation), vec![3]);
}

#[test]
fn planet_count_excludes_giants_when_asked() {
    let galaxy = Galaxy { stars: vec![system(3, 1, 0), system(4, 2, 0)] };
    let evaluation = Evaluation { known: vec![false; 2] };
    let with_giants = RulePlanetCount { exclude_giant: false, condition: Condition::Gte(4) };
    assert_eq!(with_giants.evaluate(&galaxy, &evaluation), Vec::<usize>::new());
    let without_giants = RulePlanetCount { exclude_giant: true, condition: Condition::Gte(4) };
    assert_eq!(without_giants.evaluate(&galaxy, &evaluation), vec![0]);
}

#[test]
fn planet_count_skips_known_stars_and_stars_outside_the_pass() {
    let galaxy = Galaxy { stars: vec![system(1, 0, 0), system(1, 0, 0), system(1, 0, 0), system(1, 0, 0)] };
    let evaluation = Evaluation { known: vec![false, true, false] };
    let rule = RulePlanetCount { exclude_giant: false, condition: Condition::Between(2, 6) };
    assert_eq!(rule.evaluate(&galaxy, &evaluation), vec![0, 2]);
    assert_eq!(rule.get_priority(), 30);
}

#[test]
fn conditions_compare_counts() {
    assert!(Condition::Eq(3).eval(3));
    assert!(!Condition::Eq(3).eval(4));
    assert!(Condition::Neq(3).eval(4));
    assert!(Condition::Lt(3).eval(2));
    assert!(!Condition::Lt(3).eval(3));
    assert!(Condition::Lte(3).eval(3));
    assert!(Condition::Gt(3).eval(4));
    assert!(!Condition::Gt(3).eval(3));
    assert!(Condition::Gte(3).eval(3));
    assert!(Condition::Between(2, 4).eval(2));
    assert!(Condition::Between(2, 4).eval(4));
    assert!(!Condition::Between(2, 4).eval(5));
    assert!(!Condition::Between(2, 4).eval(1));
}

#[test]
fn satellite_count_caches_until_reset() {
    let mut rule = RuleSatelliteCount { evaluated: false, condition: Condition::Between(1, 2) };
    assert!(!rule.is_evaluated());
    assert_eq!(rule.on_planets_created(&system(3, 1, 2).planets), Some(true));
    assert!(rule.is_evaluated());
    assert_eq!(rule.on_planets_created(&system(3, 1, 3).planets), Some(false));
    assert_eq!(rule.on_planets_created(&system(3, 0, 0).planets), Some(false));
    rule.reset();
    assert!(!rule.is_evaluated());
}

#[test]
fn rule_dispatch_by_variant() {
    let galaxy = Galaxy { stars: vec![system(2, 0, 0), system(5, 0, 0)] };
    let evaluation = Evaluation { known: vec![false, false] };
    let mut count = Rule::PlanetCount(RulePlanetCount { exclude_giant: false, condition: Condition::Gte(3) });
    assert_eq!(count.get_priority(), 30);
    assert_eq!(count.evaluate(&galaxy, &evaluation), vec![0]);
    assert_eq!(count.on_planets_created(&galaxy.stars[0].planets), None);
    assert!(!count.is_evaluated());

    let mut moons = Rule::SatelliteCount(RuleSatelliteCount { evaluated: false, condition: Condition::Gte(1) });
    assert_eq!(moons.get_priority(), 0);
    assert_eq!(moons.evaluate(&galaxy, &evaluation), Vec::<usize>::new());
    assert_eq!(moons.on_planets_created(&system(1, 0, 1).planets), Some(true));
    assert!(moons.is_evaluated());
    moons.reset();
    assert!(!moons.is_evaluated());
}

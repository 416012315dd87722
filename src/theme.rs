use vstd::prelude::*;

use crate::enums::{PlanetType, ThemeDistribute};
use crate::indices::{indices_where, lemma_indices_where_nonempty, lemma_indices_where_sound};

verus! {

/// What theme selection reads of a catalog entry.
#[derive(Clone, Copy, Debug, PartialEq, Eq, Structural)]
pub struct ThemeInfo {
    pub id: i32,
    pub planet_type: PlanetType,
    pub distribute: ThemeDistribute,
}

/// Whether an unused theme may be given to a planet of type `planet_type`.
/// `fits` is the outcome of the theme's temperature-affinity test.
pub open spec fn theme_qualifies(
    t: ThemeInfo,
    fits: bool,
    birth: bool,
    planet_type: PlanetType,
) -> bool {
    if birth && planet_type == PlanetType::Ocean {
        t.distribute == ThemeDistribute::Birth
    } else {
        &&& t.planet_type == planet_type
        &&& fits
        &&& if birth {
            t.distribute == ThemeDistribute::Default
        } else {
            t.distribute == ThemeDistribute::Default || t.distribute == ThemeDistribute::Interstellar
        }
    }
}

pub open spec fn preferred_pred(
    catalog: Seq<ThemeInfo>,
    fits: Seq<bool>,
    used: Seq<i32>,
    birth: bool,
    planet_type: PlanetType,
) -> spec_fn(nat) -> bool {
    |j: nat|
        !used.contains(catalog[j as int].id) && theme_qualifies(
            catalog[j as int],
            fits[j as int],
            birth,
            planet_type,
        )
}

pub open spec fn unused_desert_pred(catalog: Seq<ThemeInfo>, used: Seq<i32>) -> spec_fn(
    nat,
) -> bool {
    |j: nat| !used.contains(catalog[j as int].id) && catalog[j as int].planet_type == PlanetType::Desert
}

pub open spec fn desert_pred(catalog: Seq<ThemeInfo>) -> spec_fn(nat) -> bool {
    |j: nat| catalog[j as int].planet_type == PlanetType::Desert
}

/// Themes not used in the system that qualify for the planet.
pub open spec fn preferred_themes(
    catalog: Seq<ThemeInfo>,
    fits: Seq<bool>,
    used: Seq<i32>,
    birth: bool,
    planet_type: PlanetType,
) -> Seq<usize> {
    indices_where(catalog.len(), preferred_pred(catalog, fits, used, birth, planet_type))
}

/// Desert themes not used in the system.
pub open spec fn unused_desert_themes(catalog: Seq<ThemeInfo>, used: Seq<i32>) -> Seq<usize> {
    indices_where(catalog.len(), unused_desert_pred(catalog, used))
}

/// Every desert theme of the catalog.
pub open spec fn desert_themes(catalog: Seq<ThemeInfo>) -> Seq<usize> {
    indices_where(catalog.len(), desert_pred(catalog))
}

/// The candidate list: preferred themes, else unused desert themes, else all desert themes.
pub open spec fn theme_candidates_spec(
    catalog: Seq<ThemeInfo>,
    fits: Seq<bool>,
    used: Seq<i32>,
    birth: bool,
    planet_type: PlanetType,
) -> Seq<usize> {
    let p = preferred_themes(catalog, fits, used, birth, planet_type);
    if p.len() > 0 {
        p
    } else {
        let u = unused_desert_themes(catalog, used);
        if u.len() > 0 {
            u
        } else {
            desert_themes(catalog)
        }
    }
}

pub open spec fn has_desert_theme(catalog: Seq<ThemeInfo>) -> bool {
    exists|j: int| 0 <= j < catalog.len() && (#[trigger] catalog[j]).planet_type == PlanetType::Desert
}

/// Theme selection never runs dry: wherever the catalog holds a desert theme, whatever
/// the planet type, temperature fits and used themes, the candidate list is non-empty
/// and every candidate is an index into the catalog.
pub proof fn lemma_theme_fallback_total(
    catalog: Seq<ThemeInfo>,
    fits: Seq<bool>,
    used: Seq<i32>,
    birth: bool,
    planet_type: PlanetType,
)
    requires
        catalog.len() <= usize::MAX,
        has_desert_theme(catalog),
    ensures
        theme_candidates_spec(catalog, fits, used, birth, planet_type).len() > 0,
        forall|k: int|
            0 <= k < theme_candidates_spec(catalog, fits, used, birth, planet_type).len()
                ==> #[trigger] theme_candidates_spec(catalog, fits, used, birth, planet_type)[k]
                < catalog.len(),
{
    let j = choose|j: int| 0 <= j < catalog.len() && (#[trigger] catalog[j]).planet_type
        == PlanetType::Desert;
    lemma_indices_where_nonempty(catalog.len(), desert_pred(catalog), j as nat);
    lemma_indices_where_sound(
        catalog.len(),
        preferred_pred(catalog, fits, used, birth, planet_type),
    );
    lemma_indices_where_sound(catalog.len(), unused_desert_pred(catalog, used));
    lemma_indices_where_sound(catalog.len(), desert_pred(catalog));
}

fn contains_id(used: &Vec<i32>, id: i32) -> (r: bool)
    ensures
        r == used@.contains(id),
{
    let mut i: usize = 0;
    while i < used.len()
        invariant
            i <= used.len(),
            forall|k: int| 0 <= k < i ==> used@[k] != id,
        decreases used.len() - i,
    {
        if used[i] == id {
            return true;
        }
        i += 1;
    }
    false
}

fn qualifies(t: &ThemeInfo, fits: bool, birth: bool, planet_type: PlanetType) -> (r: bool)
    ensures
        r == theme_qualifies(*t, fits, birth, planet_type),
{
    if birth && planet_type == PlanetType::Ocean {
        t.distribute == ThemeDistribute::Birth
    } else if t.planet_type == planet_type && fits {
        if birth {
            t.distribute == ThemeDistribute::Default
        } else {
            t.distribute == ThemeDistribute::Default || t.distribute
                == ThemeDistribute::Interstellar
        }
    } else {
        false
    }
}

/// The themes a planet may take, in catalog order, with the fallback chain applied.
/// `fits[j]` is the temperature-affinity outcome of `catalog[j]` for this planet.
pub fn theme_candidates(
    catalog: &Vec<ThemeInfo>,
    fits: &Vec<bool>,
    used: &Vec<i32>,
    star_index: usize,
    planet_type: PlanetType,
) -> (r: Vec<usize>)
    requires
        fits.len() == catalog.len(),
    ensures
        r@ == theme_candidates_spec(catalog@, fits@, used@, star_index == 0, planet_type),
{
    let birth = star_index == 0;
    let mut preferred: Vec<usize> = Vec::new();
    let mut unused_desert: Vec<usize> = Vec::new();
    let mut desert: Vec<usize> = Vec::new();
    let mut j: usize = 0;
    while j < catalog.len()
        invariant
            j <= catalog.len(),
            fits.len() == catalog.len(),
            birth == (star_index == 0),
            preferred@ == indices_where(
                j as nat,
                preferred_pred(catalog@, fits@, used@, birth, planet_type),
            ),
            unused_desert@ == indices_where(j as nat, unused_desert_pred(catalog@, used@)),
            desert@ == indices_where(j as nat, desert_pred(catalog@)),
        decreases catalog.len() - j,
    {
        let t = &catalog[j];
        let is_used = contains_id(used, t.id);
        if !is_used && qualifies(t, fits[j], birth, planet_type) {
            preferred.push(j);
        }
        if !is_used && t.planet_type == PlanetType::Desert {
            unused_desert.push(j);
        }
        if t.planet_type == PlanetType::Desert {
            desert.push(j);
        }
        j += 1;
    }
    if preferred.len() > 0 {
        preferred
    } else if unused_desert.len() > 0 {
        unused_desert
    } else {
        desert
    }
}

/// Picks the candidate at `scaled` modulo the number of candidates.
pub fn pick_candidate(candidates: &Vec<usize>, scaled: usize) -> (r: usize)
    requires
        candidates.len() > 0,
    ensures
        r == candidates@[(scaled % candidates.len()) as int],
{
    candidates[scaled % candidates.len()]
}

} // verus!

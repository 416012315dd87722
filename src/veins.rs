use vstd::prelude::*;

use crate::enums::{vein_at_index, StarType, VeinType, VEIN_SLOTS};
use crate::indices::{indices_where, lemma_indices_where_sound};

verus! {

/// A resource deposit of a planet: spawn-point, patch and amount ranges.
#[derive(Clone, Copy, Debug, PartialEq, Eq, Structural)]
pub struct Vein {
    pub vein_type: VeinType,
    pub min_group: i32,
    pub max_group: i32,
    pub min_patch: i32,
    pub max_patch: i32,
    pub min_amount: i32,
    pub max_amount: i32,
}

/// Largest spread of an amount range.
pub const AMOUNT_SPREAD_CAP: i32 = 15000;

/// Densities below this bound get a spread of fifteen sixteenths of the density.
pub const AMOUNT_SPREAD_TIER: i32 = 16000;

/// Smallest deposit density.
pub const MIN_DENSITY: i32 = 20;

/// The spawn table a theme starts with: slot `i` holds `vein_spot[i - 1]`, or 0 where
/// the theme lists nothing for it; slot 0 is always 0.
pub open spec fn initial_spawns_spec(vein_spot: Seq<i32>) -> Seq<i32> {
    Seq::new(
        VEIN_SLOTS as nat,
        |i: int|
            if 1 <= i && i - 1 < vein_spot.len() {
                vein_spot[i - 1]
            } else {
                0
            },
    )
}

pub fn initial_spawns(vein_spot: &Vec<i32>) -> (r: Vec<i32>)
    ensures
        r@ == initial_spawns_spec(vein_spot@),
{
    let mut r: Vec<i32> = Vec::new();
    let mut i: usize = 0;
    while i < VEIN_SLOTS
        invariant
            i <= VEIN_SLOTS,
            r@.len() == i,
            forall|k: int| 0 <= k < i ==> r@[k] == #[trigger] initial_spawns_spec(vein_spot@)[k],
        decreases VEIN_SLOTS - i,
    {
        if i >= 1 && i - 1 < vein_spot.len() {
            r.push(vein_spot[i - 1]);
        } else {
            r.push(0);
        }
        i += 1;
    }
    assert(r@ =~= initial_spawns_spec(vein_spot@));
    r
}

/// The spawn points that a star type guarantees before any escalation: a white dwarf
/// two in slots 9 and 10 and one in slot 12; a neutron star or a black hole one in
/// slot 14; other stars none.
pub open spec fn guaranteed_spawns(star_type: StarType, slot: int) -> int {
    match star_type {
        StarType::WhiteDwarf => if slot == 9 || slot == 10 {
            2
        } else if slot == 12 {
            1
        } else {
            0
        },
        StarType::NeutronStar | StarType::BlackHole => if slot == 14 {
            1
        } else {
            0
        },
        _ => 0,
    }
}

/// Adds the spawn points that the star type guarantees.
pub fn add_star_deposits(star_type: StarType, spawns: &mut Vec<i32>)
    requires
        old(spawns).len() == VEIN_SLOTS,
        forall|k: int| 0 <= k < VEIN_SLOTS ==> #[trigger] old(spawns)@[k] <= i32::MAX - 2,
    ensures
        final(spawns).len() == VEIN_SLOTS,
        forall|k: int|
            0 <= k < VEIN_SLOTS ==> #[trigger] final(spawns)@[k] == old(spawns)@[k]
                + guaranteed_spawns(star_type, k),
{
    match star_type {
        StarType::WhiteDwarf => {
            spawns.set(9, spawns[9] + 2);
            spawns.set(10, spawns[10] + 2);
            spawns.set(12, spawns[12] + 1);
        },
        StarType::NeutronStar | StarType::BlackHole => {
            spawns.set(14, spawns[14] + 1);
        },
        _ => {},
    }
}

/// The spread of the amount range around a density: fifteen sixteenths of it, rounded
/// down, below the tier bound, and the cap above.
pub open spec fn amount_spread(density: int) -> int {
    if density < AMOUNT_SPREAD_TIER {
        density * 15 / 16
    } else {
        AMOUNT_SPREAD_CAP as int
    }
}

/// The raw amount range of a deposit: the density, raised to the minimum, plus and minus
/// its spread.
pub open spec fn deposit_range_spec(raw_density: int) -> (int, int) {
    let d = if raw_density < MIN_DENSITY {
        MIN_DENSITY as int
    } else {
        raw_density
    };
    (d - amount_spread(d), d + amount_spread(d))
}

pub fn deposit_range(raw_density: i32) -> (r: (i64, i64))
    ensures
        (r.0 as int, r.1 as int) == deposit_range_spec(raw_density as int),
        1 <= r.0 <= r.1,
{
    let d: i32 = if raw_density < MIN_DENSITY {
        MIN_DENSITY
    } else {
        raw_density
    };
    let spread: i64 = if d < AMOUNT_SPREAD_TIER {
        (d as i64) * 15 / 16
    } else {
        AMOUNT_SPREAD_CAP as i64
    };
    (d as i64 - spread, d as i64 + spread)
}

/// The vein built for an occupied slot from its spawn count and the patch and amount
/// values worked out for it; an oil vein has one patch, and amounts are at least 1.
pub open spec fn vein_spec(
    slot: int,
    count: int,
    min_patch: int,
    max_patch: int,
    min_amount: int,
    max_amount: int,
) -> Vein {
    let vt = vein_at_index(slot);
    Vein {
        vein_type: vt,
        min_group: (count - 1) as i32,
        max_group: (count + 1) as i32,
        min_patch: if vt == VeinType::Oil {
            1
        } else {
            min_patch as i32
        },
        max_patch: if vt == VeinType::Oil {
            1
        } else {
            max_patch as i32
        },
        min_amount: if min_amount < 1 {
            1
        } else {
            min_amount as i32
        },
        max_amount: if max_amount < 1 {
            1
        } else {
            max_amount as i32
        },
    }
}

pub open spec fn occupied_pred(spawns: Seq<i32>) -> spec_fn(nat) -> bool {
    |s: nat| s >= 1 && spawns[s as int] > 0
}

/// The veins of a planet: one per occupied slot from 1 up, in slot order.
pub open spec fn assemble_veins_spec(
    spawns: Seq<i32>,
    min_patch: Seq<i32>,
    max_patch: Seq<i32>,
    min_amount: Seq<i32>,
    max_amount: Seq<i32>,
) -> Seq<Vein> {
    indices_where(VEIN_SLOTS as nat, occupied_pred(spawns)).map_values(
        |s: usize|
            vein_spec(
                s as int,
                spawns[s as int] as int,
                min_patch[s as int] as int,
                max_patch[s as int] as int,
                min_amount[s as int] as int,
                max_amount[s as int] as int,
            ),
    )
}

/// Whether a vein's ranges are in order and its amounts positive.
pub open spec fn vein_wf(v: Vein) -> bool {
    &&& v.min_group <= v.max_group
    &&& v.min_patch <= v.max_patch
    &&& v.min_amount <= v.max_amount
    &&& v.min_amount >= 1
}

/// Builds the veins of the occupied slots 1..15 of a spawn table, in slot order.
/// The other tables hold, per slot, the patch range and the amount range already
/// worked out for it.
pub fn assemble_veins(
    spawns: &Vec<i32>,
    min_patch: &Vec<i32>,
    max_patch: &Vec<i32>,
    min_amount: &Vec<i32>,
    max_amount: &Vec<i32>,
) -> (r: Vec<Vein>)
    requires
        spawns.len() == VEIN_SLOTS,
        min_patch.len() == VEIN_SLOTS,
        max_patch.len() == VEIN_SLOTS,
        min_amount.len() == VEIN_SLOTS,
        max_amount.len() == VEIN_SLOTS,
        forall|k: int| 0 <= k < VEIN_SLOTS ==> #[trigger] spawns@[k] < i32::MAX,
    ensures
        r@ == assemble_veins_spec(spawns@, min_patch@, max_patch@, min_amount@, max_amount@),
{
    let ghost pred = occupied_pred(spawns@);
    let ghost f = |s: usize|
        vein_spec(
            s as int,
            spawns@[s as int] as int,
            min_patch@[s as int] as int,
            max_patch@[s as int] as int,
            min_amount@[s as int] as int,
            max_amount@[s as int] as int,
        );
    let mut r: Vec<Vein> = Vec::new();
    let mut s: usize = 1;
    assert(indices_where(1, pred) =~= indices_where(0, pred));
    while s < VEIN_SLOTS
        invariant
            1 <= s <= VEIN_SLOTS,
            spawns.len() == VEIN_SLOTS,
            min_patch.len() == VEIN_SLOTS,
            max_patch.len() == VEIN_SLOTS,
            min_amount.len() == VEIN_SLOTS,
            max_amount.len() == VEIN_SLOTS,
            forall|k: int| 0 <= k < VEIN_SLOTS ==> #[trigger] spawns@[k] < i32::MAX,
            pred == occupied_pred(spawns@),
            f == (|s: usize|
                vein_spec(
                    s as int,
                    spawns@[s as int] as int,
                    min_patch@[s as int] as int,
                    max_patch@[s as int] as int,
                    min_amount@[s as int] as int,
                    max_amount@[s as int] as int,
                )),
            r@ == indices_where(s as nat, pred).map_values(f),
        decreases VEIN_SLOTS - s,
    {
        let count = spawns[s];
        if count > 0 {
            let vt = match VeinType::from_index(s) {
                Some(v) => v,
                None => VeinType::Empty,
            };
            let (lo_patch, hi_patch) = if vt == VeinType::Oil {
                (1i32, 1i32)
            } else {
                (min_patch[s], max_patch[s])
            };
            let lo_amount = if min_amount[s] < 1 {
                1
            } else {
                min_amount[s]
            };
            let hi_amount = if max_amount[s] < 1 {
                1
            } else {
                max_amount[s]
            };
            let v = Vein {
                vein_type: vt,
                min_group: count - 1,
                max_group: count + 1,
                min_patch: lo_patch,
                max_patch: hi_patch,
                min_amount: lo_amount,
                max_amount: hi_amount,
            };
            assert(v == f(s));
            r.push(v);
            assert(r@ =~= indices_where((s + 1) as nat, pred).map_values(f));
        } else {
            assert(r@ =~= indices_where((s + 1) as nat, pred).map_values(f));
        }
        s += 1;
    }
    r
}

/// Every assembled vein has ordered group ranges and amounts of at least 1; its patch and
/// amount ranges are in order wherever the values handed in for its slot are.
pub proof fn lemma_assembled_veins_wf(
    spawns: Seq<i32>,
    min_patch: Seq<i32>,
    max_patch: Seq<i32>,
    min_amount: Seq<i32>,
    max_amount: Seq<i32>,
)
    requires
        spawns.len() == VEIN_SLOTS,
        min_patch.len() == VEIN_SLOTS,
        max_patch.len() == VEIN_SLOTS,
        min_amount.len() == VEIN_SLOTS,
        max_amount.len() == VEIN_SLOTS,
        forall|k: int| 0 <= k < VEIN_SLOTS ==> #[trigger] spawns[k] < i32::MAX,
        forall|k: int| 0 <= k < VEIN_SLOTS ==> #[trigger] min_patch[k] <= max_patch[k],
        forall|k: int| 0 <= k < VEIN_SLOTS ==> #[trigger] min_amount[k] <= max_amount[k],
    ensures
        forall|k: int|
            0 <= k < assemble_veins_spec(spawns, min_patch, max_patch, min_amount, max_amount).len()
                ==> vein_wf(
                #[trigger] assemble_veins_spec(
                    spawns,
                    min_patch,
                    max_patch,
                    min_amount,
                    max_amount,
                )[k],
            ),
{
    lemma_indices_where_sound(VEIN_SLOTS as nat, occupied_pred(spawns));
}

} // verus!

use dsp_gen::enums::{PlanetType, SpectrType, StarType, ThemeDistribute, VeinType};
use dsp_gen::planet_gen::{classify_planet, rotation_lock, RotationLock, Zone};
use dsp_gen::star::{is_birth, spectr_for};
use dsp_gen::theme::{pick_candidate, theme_candidates, ThemeInfo};
use dsp_gen::veins::{add_star_deposits, assemble_veins, deposit_range, initial_spawns, Vein};

fn theme(id: i32, planet_type: PlanetType, distribute: ThemeDistribute) -> ThemeInfo {
    ThemeInfo { id, planet_type, distribute }
}

fn catalog() -> Vec<ThemeInfo> {
    vec![
        theme(1, PlanetType::Ocean, ThemeDistribute::Birth),
        theme(2, PlanetType::Desert, ThemeDistribute::Default),
        theme(3, PlanetType::Ocean, ThemeDistribute::Default),
        theme(4, PlanetType::Ice, ThemeDistribute::Interstellar),
        theme(5, PlanetType::Desert, ThemeDistribute::Interstellar),
        theme(6, PlanetType::Ice, ThemeDistribute::Default),
    ]
}

#[test]
fn birth_star_is_index_zero() {
    assert!(is_birth(0));
    assert!(!is_birth(1));
}

#[test]
fn spectral_class_from_rounded_class_factor() {
    assert_eq!(spectr_for(StarType::MainSeqStar, -2), Some(SpectrType::G));
    assert_eq!(spectr_for(StarType::GiantStar, -4), Some(SpectrType::M));
    assert_eq!(spectr_for(StarType::MainSeqStar, 2), Some(SpectrType::O));
    assert_eq!(spectr_for(StarType::MainSeqStar, 3), None);
    assert_eq!(spectr_for(StarType::MainSeqStar, -5), None);
    assert_eq!(spectr_for(StarType::WhiteDwarf, 0), Some(SpectrType::X));
    assert_eq!(spectr_for(StarType::BlackHole, 99), Some(SpectrType::X));
    assert_eq!(SpectrType::from_class_index(3), Some(SpectrType::X));
    assert_eq!(SpectrType::G.class_index(), -2);
}

#[test]
fn vein_type_slots_are_checked() {
    assert_eq!(VeinType::from_index(7), Some(VeinType::Oil));
    assert_eq!(VeinType::from_index(14), Some(VeinType::Mag));
    assert_eq!(VeinType::from_index(15), None);
    assert_eq!(VeinType::Diamond.index(), 9);
}

#[test]
fn ocean_planet_of_birth_star_takes_a_birth_theme() {
    let cat = catalog();
    let fits = vec![true; 6];
    assert_eq!(theme_candidates(&cat, &fits, &vec![], 0, PlanetType::Ocean), vec![0]);
}

#[test]
fn themes_match_type_distribution_and_temperature() {
    let cat = catalog();
    let mut fits = vec![true; 6];
    assert_eq!(theme_candidates(&cat, &fits, &vec![], 3, PlanetType::Ice), vec![3, 5]);
    assert_eq!(theme_candidates(&cat, &fits, &vec![], 0, PlanetType::Ice), vec![5]);
    assert_eq!(theme_candidates(&cat, &fits, &vec![6], 3, PlanetType::Ice), vec![3]);
    fits[3] = false;
    assert_eq!(theme_candidates(&cat, &fits, &vec![], 3, PlanetType::Ice), vec![5]);
}

#[test]
fn theme_selection_falls_back_to_unused_desert_themes() {
    let cat = catalog();
    let fits = vec![true; 6];
    assert_eq!(theme_candidates(&cat, &fits, &vec![4, 6], 3, PlanetType::Ice), vec![1, 4]);
    assert_eq!(theme_candidates(&cat, &fits, &vec![4, 6, 2], 3, PlanetType::Ice), vec![4]);
}

#[test]
fn theme_selection_falls_back_to_any_desert_theme() {
    let cat = catalog();
    let fits = vec![false; 6];
    let used = vec![1, 2, 3, 4, 5, 6];
    let c = theme_candidates(&cat, &fits, &used, 3, PlanetType::Vocano);
    assert_eq!(c, vec![1, 4]);
    assert_eq!(pick_candidate(&c, 0), 1);
    assert_eq!(pick_candidate(&c, 5), 4);
}

#[test]
fn classification_of_rocky_planets() {
    let mut count = 3;
    assert_eq!(classify_planet(true, 2, 0, 3, true, Zone::Temperate, false, &mut count), PlanetType::Gas);
    assert_eq!(count, 3);
    assert_eq!(classify_planet(false, 2, 0, 3, true, Zone::Hot, true, &mut count), PlanetType::Ocean);
    assert_eq!(count, 4);
    assert_eq!(classify_planet(false, 0, 0, 3, true, Zone::Hot, true, &mut count), PlanetType::Vocano);
    assert_eq!(classify_planet(false, 0, 5, 1, false, Zone::Cold, true, &mut count), PlanetType::Ocean);
    assert_eq!(count, 5);
    assert_eq!(classify_planet(false, 1, 0, 2, false, Zone::Hot, false, &mut count), PlanetType::Desert);
    assert_eq!(classify_planet(false, 1, 0, 2, false, Zone::Temperate, true, &mut count), PlanetType::Desert);
    assert_eq!(classify_planet(false, 1, 0, 2, false, Zone::Cold, true, &mut count), PlanetType::Ice);
    assert_eq!(classify_planet(false, 1, 0, 2, false, Zone::Cold, false, &mut count), PlanetType::Desert);
    assert_eq!(count, 5);
}

#[test]
fn rotation_lock_only_for_inner_rocky_planets() {
    assert_eq!(rotation_lock(0, 4, false, RotationLock::Half), RotationLock::Half);
    assert_eq!(rotation_lock(0, 5, false, RotationLock::Half), RotationLock::Free);
    assert_eq!(rotation_lock(3, 1, false, RotationLock::Full), RotationLock::Free);
    assert_eq!(rotation_lock(0, 1, true, RotationLock::Quarter), RotationLock::Free);
}

#[test]
fn initial_spawns_shift_theme_table_by_one_slot() {
    let s = initial_spawns(&vec![7, 5, 0, 0, 8]);
    assert_eq!(s, vec![0, 7, 5, 0, 0, 8, 0, 0, 0, 0, 0, 0, 0, 0, 0]);
}

#[test]
fn white_dwarf_guarantees_two_rare_slots() {
    let mut s = initial_spawns(&vec![7, 5]);
    add_star_deposits(StarType::WhiteDwarf, &mut s);
    assert_eq!(s[9], 2);
    assert_eq!(s[10], 2);
    assert_eq!(s[12], 1);
    let zeros = vec![0; 15];
    let veins = assemble_veins(&s, &zeros, &zeros, &zeros, &zeros);
    let diamond = veins.iter().find(|v| v.vein_type == VeinType::Diamond).unwrap();
    let fractal = veins.iter().find(|v| v.vein_type == VeinType::Fractal).unwrap();
    assert!(diamond.min_group >= 1);
    assert!(fractal.min_group >= 1);
}

#[test]
fn neutron_stars_and_black_holes_guarantee_slot_fourteen() {
    for star_type in [StarType::NeutronStar, StarType::BlackHole] {
        let mut s = initial_spawns(&vec![]);
        add_star_deposits(star_type, &mut s);
        assert_eq!(s[14], 1);
        assert_eq!(s.iter().sum::<i32>(), 1);
    }
    let mut s = initial_spawns(&vec![1, 2]);
    add_star_deposits(StarType::MainSeqStar, &mut s);
    assert_eq!(s, initial_spawns(&vec![1, 2]));
}

#[test]
fn deposit_range_spread_and_cap() {
    assert_eq!(deposit_range(100), (7, 193));
    assert_eq!(deposit_range(5), (2, 38));
    assert_eq!(deposit_range(15999), (1000, 30998));
    assert_eq!(deposit_range(16000), (1000, 31000));
    assert_eq!(deposit_range(20000), (5000, 35000));
}

#[test]
fn veins_assembled_in_slot_order() {
    let mut spawns = vec![0; 15];
    spawns[0] = 4;
    spawns[2] = 3;
    spawns[7] = 1;
    let min_patch = vec![5; 15];
    let max_patch = vec![6; 15];
    let min_amount = vec![-3; 15];
    let max_amount = vec![900; 15];
    let veins = assemble_veins(&spawns, &min_patch, &max_patch, &min_amount, &max_amount);
    assert_eq!(
        veins,
        vec![
            Vein {
                vein_type: VeinType::Copper,
                min_group: 2,
                max_group: 4,
                min_patch: 5,
                max_patch: 6,
                min_amount: 1,
                max_amount: 900,
            },
            Vein {
                vein_type: VeinType::Oil,
                min_group: 0,
                max_group: 2,
                min_patch: 1,
                max_patch: 1,
                min_amount: 1,
                max_amount: 900,
            },
        ]
    );
}

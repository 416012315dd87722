use vstd::prelude::*;

use crate::enums::{spectr_class_index, spectr_of_class, SpectrType, StarType};

verus! {

/// Whether a star index is the birth star's.
pub open spec fn is_birth_spec(star_index: int) -> bool {
    star_index == 0
}

/// The birth star is the star at index 0.
pub fn is_birth(star_index: usize) -> (r: bool)
    ensures
        r == is_birth_spec(star_index as int),
{
    star_index == 0
}

/// The spectral class of a star from its rounded class factor: a remnant is exotic
/// whatever the class factor; any other star takes the class the rounded factor names,
/// from `M` (-4) to `O` (2). Any other rounded value is refused.
pub open spec fn spectr_spec(star_type: StarType, rounded_class: int) -> Option<SpectrType> {
    if star_type.is_remnant_spec() {
        Some(SpectrType::X)
    } else if -4 <= rounded_class <= 2 {
        Some(spectr_of_class(rounded_class))
    } else {
        None
    }
}

pub fn spectr_for(star_type: StarType, rounded_class: i32) -> (r: Option<SpectrType>)
    ensures
        r == spectr_spec(star_type, rounded_class as int),
        r matches Some(s) ==> (s == SpectrType::X) == star_type.is_remnant_spec(),
        r matches Some(s) ==> (!star_type.is_remnant_spec() ==> spectr_class_index(s)
            == rounded_class),
{
    if star_type.is_remnant() {
        Some(SpectrType::X)
    } else if -4 <= rounded_class && rounded_class <= 2 {
        let s = SpectrType::from_class_index(rounded_class);
        s
    } else {
        None
    }
}

} // verus!

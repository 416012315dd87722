use vstd::prelude::*;

verus! {

/// Classification of a star.
#[derive(Clone, Copy, Debug, PartialEq, Eq, Structural)]
pub enum StarType {
    MainSeqStar,
    GiantStar,
    WhiteDwarf,
    NeutronStar,
    BlackHole,
}

impl StarType {
    /// A remnant is a white dwarf, a neutron star or a black hole.
    pub open spec fn is_remnant_spec(self) -> bool {
        self is WhiteDwarf || self is NeutronStar || self is BlackHole
    }

    pub fn is_remnant(&self) -> (r: bool)
        ensures
            r == self.is_remnant_spec(),
    {
        matches!(self, StarType::WhiteDwarf | StarType::NeutronStar | StarType::BlackHole)
    }
}

/// Spectral class of a star, coolest first; `X` is the exotic class of remnants.
#[derive(Clone, Copy, Debug, PartialEq, Eq, Structural)]
pub enum SpectrType {
    M,
    K,
    G,
    F,
    A,
    B,
    O,
    X,
}

/// The numeric class of each spectral type: `M` is -4, `A` is 0, `O` is 2, `X` is 3.
pub open spec fn spectr_class_index(s: SpectrType) -> int {
    match s {
        SpectrType::M => -4,
        SpectrType::K => -3,
        SpectrType::G => -2,
        SpectrType::F => -1,
        SpectrType::A => 0,
        SpectrType::B => 1,
        SpectrType::O => 2,
        SpectrType::X => 3,
    }
}

/// The spectral type of a numeric class (`X` above 2, `M` below -3).
pub open spec fn spectr_of_class(i: int) -> SpectrType {
    if i <= -4 {
        SpectrType::M
    } else if i == -3 {
        SpectrType::K
    } else if i == -2 {
        SpectrType::G
    } else if i == -1 {
        SpectrType::F
    } else if i == 0 {
        SpectrType::A
    } else if i == 1 {
        SpectrType::B
    } else if i == 2 {
        SpectrType::O
    } else {
        SpectrType::X
    }
}

impl SpectrType {
    /// The numeric class of this spectral type.
    pub fn class_index(&self) -> (r: i32)
        ensures
            r == spectr_class_index(*self),
    {
        match self {
            SpectrType::M => -4,
            SpectrType::K => -3,
            SpectrType::G => -2,
            SpectrType::F => -1,
            SpectrType::A => 0,
            SpectrType::B => 1,
            SpectrType::O => 2,
            SpectrType::X => 3,
        }
    }

    /// Checked conversion from a numeric class; `None` outside -4..=3.
    pub fn from_class_index(i: i32) -> (r: Option<SpectrType>)
        ensures
            r == (if -4 <= i <= 3 {
                Some(spectr_of_class(i as int))
            } else {
                None
            }),
            r matches Some(s) ==> spectr_class_index(s) == i,
    {
        match i {
            -4 => Some(SpectrType::M),
            -3 => Some(SpectrType::K),
            -2 => Some(SpectrType::G),
            -1 => Some(SpectrType::F),
            0 => Some(SpectrType::A),
            1 => Some(SpectrType::B),
            2 => Some(SpectrType::O),
            3 => Some(SpectrType::X),
            _ => None,
        }
    }
}

/// Surface classification of a planet.
#[derive(Clone, Copy, Debug, PartialEq, Eq, Structural)]
pub enum PlanetType {
    Unknown,
    Vocano,
    Ocean,
    Desert,
    Ice,
    Gas,
}

/// Where a theme of the catalog may be placed.
#[derive(Clone, Copy, Debug, PartialEq, Eq, Structural)]
pub enum ThemeDistribute {
    Default,
    Birth,
    Interstellar,
    Rare,
}

/// Resource deposit types, in catalog order (`Empty` is slot 0, `Mag` slot 14).
#[derive(Clone, Copy, Debug, PartialEq, Eq, Structural)]
pub enum VeinType {
    Empty,
    Iron,
    Copper,
    Silicium,
    Titanium,
    Stone,
    Coal,
    Oil,
    Fireice,
    Diamond,
    Fractal,
    Crysrub,
    Grat,
    Bamboo,
    Mag,
}

/// Number of vein slots in the catalog (slot 0 is `Empty`).
pub const VEIN_SLOTS: usize = 15;

/// The catalog slot of each vein type.
pub open spec fn vein_index(v: VeinType) -> int {
    match v {
        VeinType::Empty => 0,
        VeinType::Iron => 1,
        VeinType::Copper => 2,
        VeinType::Silicium => 3,
        VeinType::Titanium => 4,
        VeinType::Stone => 5,
        VeinType::Coal => 6,
        VeinType::Oil => 7,
        VeinType::Fireice => 8,
        VeinType::Diamond => 9,
        VeinType::Fractal => 10,
        VeinType::Crysrub => 11,
        VeinType::Grat => 12,
        VeinType::Bamboo => 13,
        VeinType::Mag => 14,
    }
}

/// The vein type at a catalog slot (`Empty` outside the catalog).
pub open spec fn vein_at_index(i: int) -> VeinType {
    if i == 1 {
        VeinType::Iron
    } else if i == 2 {
        VeinType::Copper
    } else if i == 3 {
        VeinType::Silicium
    } else if i == 4 {
        VeinType::Titanium
    } else if i == 5 {
        VeinType::Stone
    } else if i == 6 {
        VeinType::Coal
    } else if i == 7 {
        VeinType::Oil
    } else if i == 8 {
        VeinType::Fireice
    } else if i == 9 {
        VeinType::Diamond
    } else if i == 10 {
        VeinType::Fractal
    } else if i == 11 {
        VeinType::Crysrub
    } else if i == 12 {
        VeinType::Grat
    } else if i == 13 {
        VeinType::Bamboo
    } else if i == 14 {
        VeinType::Mag
    } else {
        VeinType::Empty
    }
}

impl VeinType {
    /// The catalog slot of this vein type.
    pub fn index(&self) -> (r: usize)
        ensures
            r == vein_index(*self),
    {
        match self {
            VeinType::Empty => 0,
            VeinType::Iron => 1,
            VeinType::Copper => 2,
            VeinType::Silicium => 3,
            VeinType::Titanium => 4,
            VeinType::Stone => 5,
            VeinType::Coal => 6,
            VeinType::Oil => 7,
            VeinType::Fireice => 8,
            VeinType::Diamond => 9,
            VeinType::Fractal => 10,
            VeinType::Crysrub => 11,
            VeinType::Grat => 12,
            VeinType::Bamboo => 13,
            VeinType::Mag => 14,
        }
    }

    /// Checked conversion from a catalog slot; `None` outside 0..15.
    pub fn from_index(i: usize) -> (r: Option<VeinType>)
        ensures
            r == (if i < VEIN_SLOTS {
                Some(vein_at_index(i as int))
            } else {
                None
            }),
            r matches Some(v) ==> vein_index(v) == i,
    {
        match i {
            0 => Some(VeinType::Empty),
            1 => Some(VeinType::Iron),
            2 => Some(VeinType::Copper),
            3 => Some(VeinType::Silicium),
            4 => Some(VeinType::Titanium),
            5 => Some(VeinType::Stone),
            6 => Some(VeinType::Coal),
            7 => Some(VeinType::Oil),
            8 => Some(VeinType::Fireice),
            9 => Some(VeinType::Diamond),
            10 => Some(VeinType::Fractal),
            11 => Some(VeinType::Crysrub),
            12 => Some(VeinType::Grat),
            13 => Some(VeinType::Bamboo),
            14 => Some(VeinType::Mag),
            _ => None,
        }
    }
}

} // verus!

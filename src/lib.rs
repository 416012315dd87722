//! Verified decisions of a seeded star-system generator: spectral classes, planet types
//! and the habitable budget, rotation locks, theme selection with its fallback chain,
//! vein spawn tables and deposit ranges, and the rules that flag systems for regeneration.

pub mod enums;
pub mod indices;
pub mod planet_count;
pub mod planet_gen;
pub mod rule;
pub mod satellite_count;
pub mod star;
pub mod theme;
pub mod veins;

//! Geodetic datum conversion for depth-indexed borehole records.
//!
//! Borehole records locate themselves with degree-minute-second coordinates
//! and a two-digit geodetic datum code. This crate classifies the datum,
//! converts the coordinates to decimal form, merges the officially published
//! correction grids (excluding post-event earthquake grids when a survey
//! predates the event), and decides the staged historic-to-modern transform
//! pipeline. Angles are held as exact integer counts of nano-arcseconds, so
//! every conversion and merge is verified arithmetic; the raw grid
//! interpolation is supplied by an external provider that the caller drives.

pub mod boring_structs_110;
pub mod boring_structs_200;
pub mod boring_structs_210;
pub mod boring_structs_300;
pub mod boring_structs_400;
pub mod coordinate;
pub mod dates;
pub mod digits;
pub mod dms;
pub mod earthquake;
pub mod encoding;
pub mod error;
pub mod params;
pub mod text;
pub mod transform;
pub mod types;

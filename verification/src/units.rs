//! The fixed-point scale shared by the whole crate.

use vstd::prelude::*;

verus! {

/// The fixed-point representation of 1.0 for channels, saturation and value.
pub const ONE: u32 = 1_000_000;

/// Sixty degrees of hue, in millionths of a degree: the width of one sector
/// of the hue circle.
pub const SECTOR: u32 = 60_000_000;

/// 360 degrees of hue: hues at or above this value lie outside the hue
/// circle.
pub const FULL_TURN: u32 = 360_000_000;

} // verus!

//! Line metrics of a font.

use vstd::prelude::*;

verus! {

/// Number of metric units in one pixel: 2 to the 22nd.
///
/// FreeType gives distances as pixels in 26.6 fixed point, or as font units
/// to be multiplied by a 16.16 scale and then read as 26.6. In this unit
/// both are whole numbers, and so are their halves.
pub const METRIC_UNITS_PER_PIXEL: i128 = 4_194_304;

/// Number of metric units in one 64th of a pixel.
pub const METRIC_UNITS_PER_64TH: i128 = 65_536;

/// Metrics of a font at a size, each in metric units of 2^-22 pixel.
#[derive(Debug, Copy, Clone, PartialEq, Eq, Structural)]
pub struct Metrics {
    pub average_advance: i128,
    pub line_height: i128,
    pub descent: i128,
    pub underline_position: i128,
    pub underline_thickness: i128,
    pub strikeout_position: i128,
    pub strikeout_thickness: i128,
}

} // verus!

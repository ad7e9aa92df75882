//! What the rasterizer reads from a Fontconfig pattern.

use vstd::prelude::*;

use crate::ft::downsample::FixupFactor;
use crate::ft::fc::{HintStyle, LcdFilter, Rgba};

verus! {

/// Hash of a pattern, as Fontconfig computes it.
#[derive(Debug, Copy, Clone, PartialEq, Eq, Hash, Structural)]
pub struct PatternHash(pub u32);

/// A two by two transform, each entry in 16.16 fixed point.
#[derive(Debug, Copy, Clone, PartialEq, Eq, Structural)]
pub struct Matrix {
    pub xx: i64,
    pub xy: i64,
    pub yx: i64,
    pub yy: i64,
}

/// The first value of each property of a pattern that decides how a face is
/// loaded and rendered; `None` where the pattern does not hold the property.
#[derive(Debug, Copy, Clone)]
pub struct PatternProperties {
    pub antialias: Option<bool>,
    pub autohint: Option<bool>,
    pub hinting: Option<bool>,
    pub hintstyle: Option<HintStyle>,
    pub rgba: Option<Rgba>,
    pub lcdfilter: Option<LcdFilter>,
    pub embeddedbitmap: Option<bool>,
    pub scalable: Option<bool>,
    pub color: Option<bool>,
    pub embolden: Option<bool>,
    /// Pixel size in 26.6 fixed point.
    pub pixelsize: Option<u32>,
    pub matrix: Option<Matrix>,
    pub pixelsizefixupfactor: Option<FixupFactor>,
}

} // verus!

//! Values that Fontconfig patterns hold.

use vstd::prelude::*;

pub mod char_set;
pub mod pattern;

pub use char_set::CharSet;
pub use pattern::{Matrix, PatternHash, PatternProperties};

verus! {

/// Available font sets.
#[derive(Debug, Copy, Clone, PartialEq, Eq, Structural)]
pub enum SetName {
    System,
    Application,
}

/// When matching, how to match.
#[derive(Debug, Copy, Clone, PartialEq, Eq, Structural)]
pub enum MatchKind {
    Font,
    Pattern,
    Scan,
}

#[derive(Debug, Copy, Clone, PartialEq, Eq, Structural)]
pub enum Slant {
    Italic,
    Oblique,
    Roman,
}

#[derive(Debug, Copy, Clone, PartialEq, Eq, Structural)]
pub enum Weight {
    Thin,
    Extralight,
    Light,
    Book,
    Regular,
    Medium,
    Semibold,
    Bold,
    Extrabold,
    Black,
    Extrablack,
}

impl vstd::std_specs::convert::FromSpecImpl<crate::font::Slant> for Slant {
    open spec fn obeys_from_spec() -> bool {
        true
    }

    open spec fn from_spec(slant: crate::font::Slant) -> Slant {
        match slant {
            crate::font::Slant::Normal => Slant::Roman,
            crate::font::Slant::Italic => Slant::Italic,
            crate::font::Slant::Oblique => Slant::Oblique,
        }
    }
}

impl From<crate::font::Slant> for Slant {
    fn from(slant: crate::font::Slant) -> (result: Slant) {
        match slant {
            crate::font::Slant::Normal => Slant::Roman,
            crate::font::Slant::Italic => Slant::Italic,
            crate::font::Slant::Oblique => Slant::Oblique,
        }
    }
}

impl vstd::std_specs::convert::FromSpecImpl<crate::font::Weight> for Weight {
    open spec fn obeys_from_spec() -> bool {
        true
    }

    open spec fn from_spec(weight: crate::font::Weight) -> Weight {
        match weight {
            crate::font::Weight::Normal => Weight::Regular,
            crate::font::Weight::Bold => Weight::Bold,
        }
    }
}

impl From<crate::font::Weight> for Weight {
    fn from(weight: crate::font::Weight) -> (result: Weight) {
        match weight {
            crate::font::Weight::Normal => Weight::Regular,
            crate::font::Weight::Bold => Weight::Bold,
        }
    }
}

#[derive(Debug, Copy, Clone, PartialEq, Eq, Structural)]
pub enum Width {
    Ultracondensed,
    Extracondensed,
    Condensed,
    Semicondensed,
    Normal,
    Semiexpanded,
    Expanded,
    Extraexpanded,
    Ultraexpanded,
    Other(i32),
}

impl Width {
    /// The number that Fontconfig knows the width by.
    pub open spec fn value(self) -> int {
        match self {
            Width::Ultracondensed => 50,
            Width::Extracondensed => 63,
            Width::Condensed => 75,
            Width::Semicondensed => 87,
            Width::Normal => 100,
            Width::Semiexpanded => 113,
            Width::Expanded => 125,
            Width::Extraexpanded => 150,
            Width::Ultraexpanded => 200,
            Width::Other(value) => value as int,
        }
    }

    /// The number that Fontconfig knows the width by.
    pub fn to_isize(self) -> (value: isize)
        ensures
            value == self.value(),
    {
        match self {
            Width::Ultracondensed => 50,
            Width::Extracondensed => 63,
            Width::Condensed => 75,
            Width::Semicondensed => 87,
            Width::Normal => 100,
            Width::Semiexpanded => 113,
            Width::Expanded => 125,
            Width::Extraexpanded => 150,
            Width::Ultraexpanded => 200,
            Width::Other(value) => value as isize,
        }
    }
}

impl vstd::std_specs::convert::FromSpecImpl<isize> for Width {
    open spec fn obeys_from_spec() -> bool {
        true
    }

    /// The named width with that number, or `Other` with the number's low
    /// 32 bits.
    open spec fn from_spec(value: isize) -> Width {
        if value == 50 {
            Width::Ultracondensed
        } else if value == 63 {
            Width::Extracondensed
        } else if value == 75 {
            Width::Condensed
        } else if value == 87 {
            Width::Semicondensed
        } else if value == 100 {
            Width::Normal
        } else if value == 113 {
            Width::Semiexpanded
        } else if value == 125 {
            Width::Expanded
        } else if value == 150 {
            Width::Extraexpanded
        } else if value == 200 {
            Width::Ultraexpanded
        } else {
            Width::Other(value as i32)
        }
    }
}

impl From<isize> for Width {
    fn from(value: isize) -> (width: Width) {
        match value {
            50 => Width::Ultracondensed,
            63 => Width::Extracondensed,
            75 => Width::Condensed,
            87 => Width::Semicondensed,
            100 => Width::Normal,
            113 => Width::Semiexpanded,
            125 => Width::Expanded,
            150 => Width::Extraexpanded,
            200 => Width::Ultraexpanded,
            _ => Width::Other(#[verifier::truncate] (value as i32)),
        }
    }
}

/// Subpixel geometry.
#[derive(Debug, Copy, Clone, PartialEq, Eq, Structural)]
pub enum Rgba {
    Unknown,
    Rgb,
    Bgr,
    Vrgb,
    Vbgr,
    /// No subpixel geometry.
    Off,
}

impl Rgba {
    /// The number that Fontconfig knows the geometry by.
    pub open spec fn value(self) -> int {
        match self {
            Rgba::Unknown => 0,
            Rgba::Rgb => 1,
            Rgba::Bgr => 2,
            Rgba::Vrgb => 3,
            Rgba::Vbgr => 4,
            Rgba::Off => 5,
        }
    }

    /// The number that Fontconfig knows the geometry by.
    pub fn to_isize(&self) -> (value: isize)
        ensures
            value == self.value(),
    {
        match *self {
            Rgba::Unknown => 0,
            Rgba::Rgb => 1,
            Rgba::Bgr => 2,
            Rgba::Vrgb => 3,
            Rgba::Vbgr => 4,
            Rgba::Off => 5,
        }
    }

    /// The name of the geometry in lower case.
    pub open spec fn name_text(self) -> Seq<char> {
        match self {
            Rgba::Unknown => "unknown"@,
            Rgba::Rgb => "rgb"@,
            Rgba::Bgr => "bgr"@,
            Rgba::Vrgb => "vrgb"@,
            Rgba::Vbgr => "vbgr"@,
            Rgba::Off => "none"@,
        }
    }

    /// The name of the geometry in lower case.
    pub fn name(&self) -> (text: &'static str)
        ensures
            text@ == self.name_text(),
    {
        match *self {
            Rgba::Unknown => "unknown",
            Rgba::Rgb => "rgb",
            Rgba::Bgr => "bgr",
            Rgba::Vrgb => "vrgb",
            Rgba::Vbgr => "vbgr",
            Rgba::Off => "none",
        }
    }
}

impl vstd::std_specs::convert::FromSpecImpl<isize> for Rgba {
    open spec fn obeys_from_spec() -> bool {
        true
    }

    /// The geometry with that number; `Unknown` for every other number.
    open spec fn from_spec(value: isize) -> Rgba {
        if value == 1 {
            Rgba::Rgb
        } else if value == 2 {
            Rgba::Bgr
        } else if value == 3 {
            Rgba::Vrgb
        } else if value == 4 {
            Rgba::Vbgr
        } else if value == 5 {
            Rgba::Off
        } else {
            Rgba::Unknown
        }
    }
}

impl From<isize> for Rgba {
    fn from(value: isize) -> (rgba: Rgba) {
        match value {
            1 => Rgba::Rgb,
            2 => Rgba::Bgr,
            3 => Rgba::Vrgb,
            4 => Rgba::Vbgr,
            5 => Rgba::Off,
            _ => Rgba::Unknown,
        }
    }
}

/// Hinting Style.
#[derive(Debug, Copy, Clone, PartialEq, Eq, Structural)]
pub enum HintStyle {
    /// No hinting.
    Off,
    Slight,
    Medium,
    Full,
}

impl HintStyle {
    /// The name of the style in lower case.
    pub open spec fn name_text(self) -> Seq<char> {
        match self {
            HintStyle::Off => "none"@,
            HintStyle::Slight => "slight"@,
            HintStyle::Medium => "medium"@,
            HintStyle::Full => "full"@,
        }
    }

    /// The name of the style in lower case.
    pub fn name(&self) -> (text: &'static str)
        ensures
            text@ == self.name_text(),
    {
        match *self {
            HintStyle::Off => "none",
            HintStyle::Slight => "slight",
            HintStyle::Medium => "medium",
            HintStyle::Full => "full",
        }
    }
}

/// Lcd filter, used to reduce color fringing with subpixel rendering.
#[derive(Debug, Copy, Clone, PartialEq, Eq, Structural)]
pub enum LcdFilter {
    /// No filter.
    Off,
    Default,
    Light,
    Legacy,
}

impl LcdFilter {
    /// The name of the filter in lower case.
    pub open spec fn name_text(self) -> Seq<char> {
        match self {
            LcdFilter::Off => "none"@,
            LcdFilter::Default => "default"@,
            LcdFilter::Light => "light"@,
            LcdFilter::Legacy => "legacy"@,
        }
    }

    /// The name of the filter in lower case.
    pub fn name(&self) -> (text: &'static str)
        ensures
            text@ == self.name_text(),
    {
        match *self {
            LcdFilter::Off => "none",
            LcdFilter::Default => "default",
            LcdFilter::Light => "light",
            LcdFilter::Legacy => "legacy",
        }
    }
}

} // verus!

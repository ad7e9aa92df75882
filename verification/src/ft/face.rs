//! How a face is loaded and rendered, as its pattern asks.

use vstd::prelude::*;

use crate::ft::downsample::FixupFactor;
use crate::ft::fc::pattern::{Matrix, PatternProperties};
use crate::ft::fc::{HintStyle, LcdFilter, Rgba};

verus! {

/// The hinting algorithm that a glyph is loaded for.
#[derive(Debug, Copy, Clone, PartialEq, Eq, Structural)]
pub enum LoadTarget {
    Normal,
    Light,
    Mono,
    Lcd,
    LcdV,
}

/// The flags that a glyph is loaded with.
#[derive(Debug, Copy, Clone, PartialEq, Eq, Structural)]
pub struct LoadFlags {
    pub target: LoadTarget,
    pub no_hinting: bool,
    pub monochrome: bool,
    pub no_bitmap: bool,
    pub color: bool,
    pub force_autohint: bool,
}

/// The mode that a glyph is rendered in.
#[derive(Debug, Copy, Clone, PartialEq, Eq, Structural)]
pub enum RenderMode {
    Normal,
    Light,
    Mono,
    Lcd,
    LcdV,
}

/// The hint style that a pattern asks for: none where hinting is switched
/// off, full where the pattern names none.
pub open spec fn effective_hintstyle(pattern: PatternProperties) -> HintStyle {
    if pattern.hinting.unwrap_or(true) {
        pattern.hintstyle.unwrap_or(HintStyle::Full)
    } else {
        HintStyle::Off
    }
}

/// The hinting side of the load flags.
///
/// Without antialiasing glyphs are loaded monochrome. Slight hinting takes
/// the light algorithm whatever the subpixel geometry is; full hinting takes
/// the algorithm of the geometry.
pub open spec fn hinting_flags(antialias: bool, hintstyle: HintStyle, rgba: Rgba) -> LoadFlags {
    let plain = LoadFlags {
        target: LoadTarget::Normal,
        no_hinting: false,
        monochrome: false,
        no_bitmap: false,
        color: false,
        force_autohint: false,
    };
    if !antialias {
        if hintstyle == HintStyle::Off {
            LoadFlags { no_hinting: true, monochrome: true, ..plain }
        } else {
            LoadFlags { target: LoadTarget::Mono, monochrome: true, ..plain }
        }
    } else {
        match hintstyle {
            HintStyle::Off => LoadFlags { no_hinting: true, ..plain },
            HintStyle::Slight => LoadFlags { target: LoadTarget::Light, ..plain },
            HintStyle::Medium => plain,
            HintStyle::Full => match rgba {
                Rgba::Rgb | Rgba::Bgr => LoadFlags { target: LoadTarget::Lcd, ..plain },
                Rgba::Vrgb | Rgba::Vbgr => LoadFlags { target: LoadTarget::LcdV, ..plain },
                Rgba::Unknown | Rgba::Off => plain,
            },
        }
    }
}

/// The load flags that a pattern asks for.
///
/// Embedded bitmaps are switched off only for scalable fonts without color,
/// since every other font has nothing but bitmaps.
pub open spec fn load_flags_of(pattern: PatternProperties) -> LoadFlags {
    let color = pattern.color.unwrap_or(false);
    let hinted = hinting_flags(
        pattern.antialias.unwrap_or(true),
        effective_hintstyle(pattern),
        pattern.rgba.unwrap_or(Rgba::Unknown),
    );
    LoadFlags {
        no_bitmap: !pattern.embeddedbitmap.unwrap_or(true) && pattern.scalable.unwrap_or(true)
            && !color,
        color,
        force_autohint: pattern.autohint.unwrap_or(false),
        ..hinted
    }
}

/// The render mode that a pattern asks for.
pub open spec fn render_mode_of(pattern: PatternProperties) -> RenderMode {
    if !pattern.antialias.unwrap_or(true) {
        RenderMode::Mono
    } else {
        match pattern.rgba.unwrap_or(Rgba::Unknown) {
            Rgba::Rgb | Rgba::Bgr => RenderMode::Lcd,
            Rgba::Vrgb | Rgba::Vbgr => RenderMode::LcdV,
            Rgba::Unknown | Rgba::Off => RenderMode::Normal,
        }
    }
}

/// What the rasterizer keeps of a loaded face.
#[derive(Debug, Copy, Clone)]
pub struct FaceLoadingProperties {
    pub load_flags: LoadFlags,
    pub render_mode: RenderMode,
    pub lcd_filter: LcdFilter,
    /// The pixel size of a face that cannot be scaled, in 26.6 fixed point.
    pub non_scalable: Option<u32>,
    pub colored_bitmap: bool,
    pub embolden: bool,
    pub matrix: Option<Matrix>,
    pub pixelsize_fixup_factor: Option<FixupFactor>,
    pub rgba: Rgba,
}

impl FaceLoadingProperties {
    /// The properties of a face loaded for `pattern`. `has_color` and
    /// `is_scalable` are what the loaded face says of itself.
    ///
    /// A pattern of a font that cannot be scaled has a pixel size.
    pub fn from_pattern(
        pattern: &PatternProperties,
        has_color: bool,
        is_scalable: bool,
    ) -> (face: FaceLoadingProperties)
        requires
            pattern.scalable == Some(false) ==> pattern.pixelsize is Some,
        ensures
            face.load_flags == load_flags_of(*pattern),
            face.render_mode == render_mode_of(*pattern),
            face.lcd_filter == pattern.lcdfilter.unwrap_or(LcdFilter::Default),
            face.non_scalable == if pattern.scalable.unwrap_or(true) {
                None
            } else {
                pattern.pixelsize
            },
            face.colored_bitmap == (has_color && !is_scalable),
            face.embolden == pattern.embolden.unwrap_or(false),
            face.matrix == pattern.matrix,
            face.pixelsize_fixup_factor == pattern.pixelsizefixupfactor,
            face.rgba == pattern.rgba.unwrap_or(Rgba::Unknown),
    {
        let scalable: bool = match pattern.scalable {
            Some(scalable) => scalable,
            None => true,
        };
        let non_scalable: Option<u32> = if scalable {
            None
        } else {
            pattern.pixelsize
        };
        let embolden: bool = match pattern.embolden {
            Some(embolden) => embolden,
            None => false,
        };
        let rgba: Rgba = match pattern.rgba {
            Some(rgba) => rgba,
            None => Rgba::Unknown,
        };
        FaceLoadingProperties {
            load_flags: ft_load_flags(pattern),
            render_mode: ft_render_mode(pattern),
            lcd_filter: ft_lcd_filter(pattern),
            non_scalable,
            colored_bitmap: has_color && !is_scalable,
            embolden,
            matrix: pattern.matrix,
            pixelsize_fixup_factor: pattern.pixelsizefixupfactor,
            rgba,
        }
    }
}

/// The value of a property, or `default` where the pattern lacks it.
fn flag_or(value: Option<bool>, default: bool) -> (flag: bool)
    ensures
        flag == value.unwrap_or(default),
{
    match value {
        Some(flag) => flag,
        None => default,
    }
}

/// The load flags that a pattern asks for.
pub fn ft_load_flags(pattern: &PatternProperties) -> (flags: LoadFlags)
    ensures
        flags == load_flags_of(*pattern),
{
    let antialias: bool = flag_or(pattern.antialias, true);
    let autohint: bool = flag_or(pattern.autohint, false);
    let hinting: bool = flag_or(pattern.hinting, true);
    let rgba: Rgba = match pattern.rgba {
        Some(rgba) => rgba,
        None => Rgba::Unknown,
    };
    let embedded_bitmaps: bool = flag_or(pattern.embeddedbitmap, true);
    let scalable: bool = flag_or(pattern.scalable, true);
    let color: bool = flag_or(pattern.color, false);

    // Disable hinting if so was requested.
    let hintstyle: HintStyle = if hinting {
        match pattern.hintstyle {
            Some(hintstyle) => hintstyle,
            None => HintStyle::Full,
        }
    } else {
        HintStyle::Off
    };

    let mut flags = LoadFlags {
        target: LoadTarget::Normal,
        no_hinting: false,
        monochrome: false,
        no_bitmap: false,
        color: false,
        force_autohint: false,
    };
    match (antialias, hintstyle, rgba) {
        (false, HintStyle::Off, _) => {
            flags.no_hinting = true;
            flags.monochrome = true;
        },
        (false, _, _) => {
            flags.target = LoadTarget::Mono;
            flags.monochrome = true;
        },
        (true, HintStyle::Off, _) => {
            flags.no_hinting = true;
        },
        // Slight hinting does not use LCD hinting even when a subpixel mode
        // is selected: the light algorithm may be rendered in any mode.
        (true, HintStyle::Slight, _) => {
            flags.target = LoadTarget::Light;
        },
        (true, HintStyle::Medium, _) => {},
        // LCD hinting takes full hinting, antialiasing and a subpixel mode.
        (true, HintStyle::Full, Rgba::Rgb) | (true, HintStyle::Full, Rgba::Bgr) => {
            flags.target = LoadTarget::Lcd;
        },
        (true, HintStyle::Full, Rgba::Vrgb) | (true, HintStyle::Full, Rgba::Vbgr) => {
            flags.target = LoadTarget::LcdV;
        },
        // Without a subpixel mode full hinting is the default algorithm.
        (true, HintStyle::Full, Rgba::Unknown) | (true, HintStyle::Full, Rgba::Off) => {},
    }

    // Non scalable fonts only have bitmaps, so disabling them entirely is
    // likely not a desirable thing. Colored fonts aren't scalable, but also
    // only have bitmaps.
    if !embedded_bitmaps && scalable && !color {
        flags.no_bitmap = true;
    }
    // Use color for colored fonts.
    if color {
        flags.color = true;
    }
    // Force autohint if it was requested.
    if autohint {
        flags.force_autohint = true;
    }
    flags
}

/// The render mode that a pattern asks for.
pub fn ft_render_mode(pattern: &PatternProperties) -> (mode: RenderMode)
    ensures
        mode == render_mode_of(*pattern),
{
    let antialias: bool = flag_or(pattern.antialias, true);
    let rgba: Rgba = match pattern.rgba {
        Some(rgba) => rgba,
        None => Rgba::Unknown,
    };
    match (antialias, rgba) {
        (false, _) => RenderMode::Mono,
        (_, Rgba::Rgb) | (_, Rgba::Bgr) => RenderMode::Lcd,
        (_, Rgba::Vrgb) | (_, Rgba::Vbgr) => RenderMode::LcdV,
        (true, _) => RenderMode::Normal,
    }
}

/// The LCD filter that a pattern asks for: the default one where it names
/// none.
pub fn ft_lcd_filter(pattern: &PatternProperties) -> (filter: LcdFilter)
    ensures
        filter == pattern.lcdfilter.unwrap_or(LcdFilter::Default),
{
    match pattern.lcdfilter {
        Some(filter) => filter,
        None => LcdFilter::Default,
    }
}

} // verus!

//! Line metrics from what a FreeType face says of itself.

use vstd::prelude::*;

use crate::metrics::{Metrics, METRIC_UNITS_PER_64TH, METRIC_UNITS_PER_PIXEL};

verus! {

/// What a face at a size says of its measures.
#[derive(Debug, Copy, Clone, PartialEq, Eq)]
pub struct NativeMetrics {
    /// Ascender of the size, in 64ths of a pixel.
    pub ascender: i64,
    /// Descender of the size, in 64ths of a pixel; negative below the
    /// baseline.
    pub descender: i64,
    /// Distance between baselines, in 64ths of a pixel.
    pub height: i64,
    /// Largest advance of the size, in 64ths of a pixel.
    pub max_advance: i64,
    /// Scale from font units to 64ths of a pixel, in 16.16 fixed point.
    pub x_scale: i64,
    /// Position of the underline in font units.
    pub underline_position: i16,
    /// Thickness of the underline in font units.
    pub underline_thickness: i16,
    /// Advance of the glyph of `0` in 64ths of a pixel, where the glyph
    /// could be loaded.
    pub zero_advance: Option<i64>,
    /// Position and size of the strikeout in font units, where the font
    /// gives them.
    pub strikeout: Option<(i16, i16)>,
}

impl NativeMetrics {
    /// Width of a cell in 64ths of a pixel: the advance of `0`, or the
    /// largest advance where that glyph is missing.
    pub open spec fn cell_width(self) -> int {
        match self.zero_advance {
            Some(advance) => advance as int,
            None => self.max_advance as int,
        }
    }

    /// Height of a line in 64ths of a pixel: the distance between baselines,
    /// or the span from descender to ascender where that is larger.
    pub open spec fn line_height(self) -> int {
        if self.height >= self.ascender - self.descender {
            self.height as int
        } else {
            self.ascender - self.descender
        }
    }

    /// Whether the font says where its underline is. Bitmap fonts often do
    /// not.
    pub open spec fn has_underline(self) -> bool {
        self.underline_position as int * self.x_scale as int != 0
    }

    /// Position of the underline in metric units: the font's own, or half
    /// the descent.
    pub open spec fn underline_position_units(self) -> int {
        if self.has_underline() {
            self.underline_position as int * self.x_scale as int
        } else {
            self.descender as int * (METRIC_UNITS_PER_64TH as int / 2)
        }
    }

    /// Thickness of the underline in metric units: the font's own, or a
    /// fifth of the descent rounded to whole pixels, halves up.
    pub open spec fn underline_thickness_units(self) -> int {
        if self.has_underline() {
            self.underline_thickness as int * self.x_scale as int
        } else {
            let depth = if self.descender < 0 { -self.descender } else { self.descender as int };
            ((depth + 160) / 320) * METRIC_UNITS_PER_PIXEL as int
        }
    }

    /// Position of the strikeout in metric units: the font's own, or half a
    /// line above the descent.
    pub open spec fn strikeout_position_units(self) -> int {
        match self.strikeout {
            Some((position, _)) => position as int * self.x_scale as int,
            None => (self.line_height() + 2 * self.descender) * (METRIC_UNITS_PER_64TH as int / 2),
        }
    }

    /// Thickness of the strikeout in metric units: the font's own, or that
    /// of the underline.
    pub open spec fn strikeout_thickness_units(self) -> int {
        match self.strikeout {
            Some((_, size)) => size as int * self.x_scale as int,
            None => self.underline_thickness_units(),
        }
    }

    /// The metrics that the measures give.
    pub open spec fn metrics(self) -> Metrics {
        Metrics {
            average_advance: (self.cell_width() * METRIC_UNITS_PER_64TH as int) as i128,
            line_height: (self.line_height() * METRIC_UNITS_PER_64TH as int) as i128,
            descent: (self.descender as int * METRIC_UNITS_PER_64TH as int) as i128,
            underline_position: self.underline_position_units() as i128,
            underline_thickness: self.underline_thickness_units() as i128,
            strikeout_position: self.strikeout_position_units() as i128,
            strikeout_thickness: self.strikeout_thickness_units() as i128,
        }
    }

    /// Every metric fits its field, so that nothing is cut off in
    /// [`NativeMetrics::metrics`].
    pub proof fn lemma_metrics_fit(self)
        ensures
            self.metrics().average_advance == self.cell_width() * METRIC_UNITS_PER_64TH as int,
            self.metrics().line_height == self.line_height() * METRIC_UNITS_PER_64TH as int,
            self.metrics().descent == self.descender as int * METRIC_UNITS_PER_64TH as int,
            self.metrics().underline_position == self.underline_position_units(),
            self.metrics().underline_thickness == self.underline_thickness_units(),
            self.metrics().strikeout_position == self.strikeout_position_units(),
            self.metrics().strikeout_thickness == self.strikeout_thickness_units(),
    {
        self.lemma_scaled_bounds(self.underline_position);
        self.lemma_scaled_bounds(self.underline_thickness);
        match self.strikeout {
            Some((position, size)) => {
                self.lemma_scaled_bounds(position);
                self.lemma_scaled_bounds(size);
            },
            None => {},
        }
    }

    /// A count of font units times the scale stays far inside `i128`.
    proof fn lemma_scaled_bounds(self, units: i16)
        ensures
            -0x8000 * 0x8000_0000_0000_0000 <= units as int * self.x_scale as int <= 0x8000
                * 0x8000_0000_0000_0000,
    {
        let u = units as int;
        let s = self.x_scale as int;
        assert(-0x8000 * 0x8000_0000_0000_0000 <= u * s <= 0x8000 * 0x8000_0000_0000_0000)
            by (nonlinear_arith)
            requires
                -0x8000 <= u <= 0x8000,
                -0x8000_0000_0000_0000 <= s <= 0x8000_0000_0000_0000,
        ;
    }

    /// Computes `units * x_scale`.
    fn scaled(&self, units: i16) -> (scaled: i128)
        ensures
            scaled == units as int * self.x_scale as int,
    {
        proof {
            self.lemma_scaled_bounds(units);
        }
        units as i128 * self.x_scale as i128
    }

    /// Computes [`NativeMetrics::metrics`].
    pub fn to_metrics(&self) -> (metrics: Metrics)
        ensures
            metrics == self.metrics(),
    {
        proof {
            self.lemma_metrics_fit();
        }
        let descender: i128 = self.descender as i128;
        let span: i128 = self.ascender as i128 - descender;
        let height: i128 = if self.height as i128 >= span {
            self.height as i128
        } else {
            span
        };
        let cell_width: i128 = match self.zero_advance {
            Some(advance) => advance as i128,
            None => self.max_advance as i128,
        };

        // Underline position and thickness in device pixels.
        let mut underline_position: i128 = self.scaled(self.underline_position);
        let mut underline_thickness: i128 = self.scaled(self.underline_thickness);

        // Fallback for bitmap fonts which do not provide underline metrics.
        if underline_position == 0 {
            let depth: i128 = if descender < 0 {
                -descender
            } else {
                descender
            };
            underline_thickness = ((depth + 160) / 320) * METRIC_UNITS_PER_PIXEL;
            underline_position = descender * (METRIC_UNITS_PER_64TH / 2);
        }
        // Strikeout position and thickness in device pixels.
        let (strikeout_position, strikeout_thickness): (i128, i128) = match self.strikeout {
            Some((position, size)) => (self.scaled(position), self.scaled(size)),
            // Fallback if the font doesn't provide info about strikeout.
            None => ((height + 2 * descender) * (METRIC_UNITS_PER_64TH / 2), underline_thickness),
        };

        Metrics {
            average_advance: cell_width * METRIC_UNITS_PER_64TH,
            line_height: height * METRIC_UNITS_PER_64TH,
            descent: descender * METRIC_UNITS_PER_64TH,
            underline_position,
            underline_thickness,
            strikeout_position,
            strikeout_thickness,
        }
    }
}

} // verus!

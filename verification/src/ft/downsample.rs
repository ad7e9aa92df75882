//! Box-filter downscaling of color glyphs that were rendered from a bitmap
//! strike larger than the requested size.

use vstd::prelude::*;

use crate::glyph::{BitmapBuffer, GlyphView, RasterizedGlyph};

verus! {

/// Ratio between the requested pixel size and the size of the strike that a
/// glyph was rendered from, as a fraction of two integers.
#[derive(Debug, Copy, Clone)]
pub struct FixupFactor {
    numerator: u32,
    denominator: u32,
}

impl FixupFactor {
    #[verifier::type_invariant]
    spec fn inv(self) -> bool {
        self.denominator > 0
    }

    /// The requested size, in the unit of the denominator.
    pub closed spec fn spec_numerator(self) -> int {
        self.numerator as int
    }

    /// The strike's size; never zero.
    pub closed spec fn spec_denominator(self) -> int {
        self.denominator as int
    }

    /// The factor `numerator / denominator`.
    pub closed spec fn of(numerator: u32, denominator: u32) -> FixupFactor {
        FixupFactor { numerator, denominator }
    }

    /// A factor is its numerator and its denominator.
    pub proof fn lemma_of_parts(numerator: u32, denominator: u32)
        ensures
            FixupFactor::of(numerator, denominator).spec_numerator() == numerator,
            FixupFactor::of(numerator, denominator).spec_denominator() == denominator,
    {
    }

    /// The factor `numerator / denominator`; `None` where the denominator is
    /// zero.
    pub fn new(numerator: u32, denominator: u32) -> (factor: Option<FixupFactor>)
        ensures
            factor == if denominator > 0 {
                Some(FixupFactor::of(numerator, denominator))
            } else {
                None
            },
            factor matches Some(f) ==> f.spec_numerator() == numerator && f.spec_denominator()
                == denominator,
    {
        if denominator == 0 {
            None
        } else {
            Some(FixupFactor { numerator, denominator })
        }
    }

    pub fn numerator(&self) -> (numerator: u32)
        ensures
            numerator == self.spec_numerator(),
    {
        self.numerator
    }

    pub fn denominator(&self) -> (denominator: u32)
        ensures
            denominator == self.spec_denominator(),
            denominator > 0,
    {
        proof {
            use_type_invariant(self);
        }
        self.denominator
    }

    /// Whether the factor is below one, so that a glyph scaled by it gets
    /// smaller.
    pub open spec fn shrinks(self) -> bool {
        self.spec_numerator() < self.spec_denominator()
    }

    /// A length scaled by the factor, rounded down.
    pub open spec fn scaled_len(self, len: int) -> int {
        len * self.spec_numerator() / self.spec_denominator()
    }

    /// An offset scaled by the factor, rounded toward zero.
    pub open spec fn scaled_offset(self, offset: int) -> int {
        if offset >= 0 {
            offset * self.spec_numerator() / self.spec_denominator()
        } else {
            -((-offset) * self.spec_numerator() / self.spec_denominator())
        }
    }

    /// A distance scaled by the factor and rounded to the nearest integer,
    /// halves away from zero, then brought into the range of `i32`.
    pub open spec fn scaled_advance(self, advance: int) -> int {
        let nearest = if advance >= 0 {
            (2 * advance * self.spec_numerator() + self.spec_denominator()) / (2
                * self.spec_denominator())
        } else {
            -((2 * (-advance) * self.spec_numerator() + self.spec_denominator()) / (2
                * self.spec_denominator()))
        };
        if nearest > i32::MAX {
            i32::MAX as int
        } else if nearest < i32::MIN {
            i32::MIN as int
        } else {
            nearest
        }
    }

    /// First source row or column that belongs to target row or column
    /// `index`: `index` divided by the factor, rounded to the nearest
    /// integer, halves up.
    pub open spec fn source_edge(self, index: int) -> int {
        (2 * index * self.spec_denominator() + self.spec_numerator()) / (2 * self.spec_numerator())
    }

    /// The mean of channel `channel` over the source pixels that target pixel
    /// (`row`, `column`) stands for, rounded down. `bytes` holds RGBA pixels
    /// in rows of `width`.
    pub open spec fn averaged(
        self,
        bytes: Seq<u8>,
        width: int,
        row: int,
        column: int,
        channel: int,
    ) -> int {
        let first_row = self.source_edge(row);
        let end_row = self.source_edge(row + 1);
        let first_column = self.source_edge(column);
        let end_column = self.source_edge(column + 1);
        box_sum(bytes, width, first_row, end_row, first_column, end_column, channel) / ((end_row
            - first_row) * (end_column - first_column))
    }

    /// The RGBA pixels of a `width` by `height` source scaled down by the
    /// factor: row by row, each target pixel the mean of its source
    /// rectangle.
    pub open spec fn downsampled(self, bytes: Seq<u8>, width: int, height: int) -> Seq<u8> {
        let target_width = self.scaled_len(width);
        let target_height = self.scaled_len(height);
        Seq::new(
            (4 * (target_height * target_width)) as nat,
            |i: int|
                self.averaged(
                    bytes,
                    width,
                    (i / 4) / target_width,
                    (i / 4) % target_width,
                    i % 4,
                ) as u8,
        )
    }
}

/// Channel `channel` of the pixel at `row` and `column`, where `bytes` holds
/// RGBA pixels in rows of `width`.
pub open spec fn source_channel(
    bytes: Seq<u8>,
    width: int,
    row: int,
    column: int,
    channel: int,
) -> u8 {
    bytes[4 * (row * width + column) + channel]
}

impl FixupFactor {
    /// The glyph scaled by the factor. Only a colored glyph is scaled, and
    /// only by a factor below one: every other glyph stays as it is. The
    /// advance is left alone.
    pub open spec fn scaled_glyph(self, glyph: GlyphView) -> GlyphView {
        if glyph.colored && self.shrinks() {
            GlyphView {
                character: glyph.character,
                width: self.scaled_len(glyph.width),
                height: self.scaled_len(glyph.height),
                top: self.scaled_offset(glyph.top),
                left: self.scaled_offset(glyph.left),
                advance: glyph.advance,
                colored: true,
                bytes: self.downsampled(glyph.bytes, glyph.width, glyph.height),
            }
        } else {
            glyph
        }
    }
}

/// Sum of channel `channel` over the columns `first..end` of row `row`.
pub open spec fn row_sum(
    bytes: Seq<u8>,
    width: int,
    row: int,
    first: int,
    end: int,
    channel: int,
) -> int
    decreases end - first,
{
    if end <= first {
        0
    } else {
        row_sum(bytes, width, row, first, end - 1, channel) + source_channel(
            bytes,
            width,
            row,
            end - 1,
            channel,
        )
    }
}

/// Sum of channel `channel` over the rectangle of rows `first_row..end_row`
/// and columns `first_column..end_column`.
pub open spec fn box_sum(
    bytes: Seq<u8>,
    width: int,
    first_row: int,
    end_row: int,
    first_column: int,
    end_column: int,
    channel: int,
) -> int
    decreases end_row - first_row,
{
    if end_row <= first_row {
        0
    } else {
        box_sum(bytes, width, first_row, end_row - 1, first_column, end_column, channel) + row_sum(
            bytes,
            width,
            end_row - 1,
            first_column,
            end_column,
            channel,
        )
    }
}

/// The source rows (or columns) of a target row lie inside the source, and
/// there is at least one of them.
pub proof fn lemma_source_edges(factor: FixupFactor, index: int, len: int)
    requires
        0 < factor.spec_numerator() < factor.spec_denominator(),
        0 <= index < factor.scaled_len(len),
    ensures
        0 <= factor.source_edge(index) < factor.source_edge(index + 1) <= len,
{
    let n = factor.spec_numerator();
    let d = factor.spec_denominator();
    let a = 2 * index * d + n;
    let b = 2 * (index + 1) * d + n;
    assert(b == a + 2 * d) by (nonlinear_arith)
        requires
            a == 2 * index * d + n,
            b == 2 * (index + 1) * d + n,
    ;
    assert(0 <= a) by (nonlinear_arith)
        requires
            a == 2 * index * d + n,
            0 <= index,
            0 < n < d,
    ;
    assert((index + 1) * d <= len * n) by (nonlinear_arith)
        requires
            index + 1 <= (len * n) / d,
            0 < d,
    ;
    assert(b < 2 * n * (len + 1)) by (nonlinear_arith)
        requires
            b == 2 * (index + 1) * d + n,
            (index + 1) * d <= len * n,
            0 < n,
    ;
    assert(0 <= a / (2 * n) < (a + 2 * d) / (2 * n)) by (nonlinear_arith)
        requires
            0 <= a,
            0 < n < d,
    ;
    assert(b / (2 * n) <= len) by (nonlinear_arith)
        requires
            b < 2 * n * (len + 1),
            0 < n,
    ;
}

/// A pixel of a `width` by `height` image lies inside a buffer that covers
/// the image.
proof fn lemma_pixel_offset(width: int, height: int, row: int, column: int, len: int)
    requires
        0 <= row < height,
        0 <= column < width,
        4 * (width * height) <= len,
    ensures
        0 <= row * width,
        4 * (row * width + column) + 3 < len,
{
    assert(0 <= row * width && row * width + width <= width * height) by (nonlinear_arith)
        requires
            0 <= row < height,
            0 <= width,
    ;
}

impl FixupFactor {
    /// Computes [`FixupFactor::source_edge`] for an index inside a source of
    /// `len` rows or columns.
    fn edge(&self, index: usize, len: usize) -> (edge: usize)
        requires
            0 < self.spec_numerator() < self.spec_denominator(),
            index <= self.scaled_len(len as int),
            len <= i32::MAX,
        ensures
            edge == self.source_edge(index as int),
            edge <= len,
    {
        let n: u128 = self.numerator as u128;
        let d: u128 = self.denominator as u128;
        proof {
            if index > 0 {
                lemma_source_edges(*self, index - 1, len as int);
            }
            assert(self.scaled_len(len as int) <= len) by (nonlinear_arith)
                requires
                    self.scaled_len(len as int) == (len * n) / (d as int),
                    0 < n < d,
                    0 <= len,
            ;
            assert(2 * index * d <= 2 * 0x8000_0000 * 0x1_0000_0000) by (nonlinear_arith)
                requires
                    0 <= index <= 0x8000_0000,
                    0 <= d <= 0x1_0000_0000,
            ;
            assert(2 * (index as int) * (d as int) == (2 * index) * d) by (nonlinear_arith);
        }
        let doubled: u128 = 2 * (index as u128);
        let edge: u128 = (doubled * d + n) / (2 * n);
        proof {
            let ni = n as int;
            assert(doubled * d + n == 2 * index * self.spec_denominator() + ni);
            assert(edge as int == (2 * index * self.spec_denominator() + ni) / (2 * ni));
            assert(edge == self.source_edge(index as int));
            if index == 0 {
                assert((2 * 0 * self.spec_denominator() + ni) / (2 * ni) == 0) by (nonlinear_arith)
                    requires
                        ni > 0,
                ;
                assert(edge == 0);
            } else {
                assert(self.source_edge(index as int) <= len);
            }
            assert(edge <= len);
        }
        edge as usize
    }
}

/// Scales the RGBA pixels of a `width` by `height` image down by `factor`
/// with a box filter.
fn box_filter(
    buffer: &Vec<u8>,
    width: usize,
    height: usize,
    factor: &FixupFactor,
) -> (packed: Vec<u8>)
    requires
        factor.shrinks(),
        width <= i32::MAX,
        height <= i32::MAX,
        buffer@.len() >= 4 * (width * height),
    ensures
        packed@ == factor.downsampled(buffer@, width as int, height as int),
{
    proof {
        use_type_invariant(factor);
    }
    let len: usize = buffer.len();
    let target_width: usize = factor.scale_len(width as i32) as usize;
    let target_height: usize = factor.scale_len(height as i32) as usize;

    let mut packed: Vec<u8> = Vec::new();
    let mut line: usize = 0;
    while line < target_height
        invariant
            factor.shrinks(),
            width <= i32::MAX,
            height <= i32::MAX,
            len == buffer@.len(),
            len >= 4 * (width * height),
            target_width == factor.scaled_len(width as int),
            target_height == factor.scaled_len(height as int),
            line <= target_height,
            packed@.len() == 4 * (line * target_width),
            forall|i: int|
                0 <= i < packed@.len() ==> packed@[i] == factor.averaged(
                    buffer@,
                    width as int,
                    (i / 4) / (target_width as int),
                    (i / 4) % (target_width as int),
                    i % 4,
                ) as u8,
        decreases target_height - line,
    {
        assert(factor.spec_numerator() > 0) by (nonlinear_arith)
            requires
                (height * factor.spec_numerator()) / factor.spec_denominator() > 0,
                factor.spec_numerator() >= 0,
                factor.spec_denominator() > 0,
                height >= 0,
        ;
        // The first and last line which are consolidated in this output line.
        let line_start: usize = factor.edge(line, height);
        let line_end: usize = factor.edge(line + 1, height);
        proof {
            lemma_source_edges(*factor, line as int, height as int);
        }
        let mut column: usize = 0;
        while column < target_width
            invariant
                factor.shrinks(),
                factor.spec_numerator() > 0,
                width <= i32::MAX,
                height <= i32::MAX,
                len == buffer@.len(),
                len >= 4 * (width * height),
                target_width == factor.scaled_len(width as int),
                target_height == factor.scaled_len(height as int),
                line < target_height,
                line_start == factor.source_edge(line as int),
                line_end == factor.source_edge(line + 1),
                line_start < line_end <= height,
                column <= target_width,
                packed@.len() == 4 * (line * target_width + column),
                forall|i: int|
                    0 <= i < packed@.len() ==> packed@[i] == factor.averaged(
                        buffer@,
                        width as int,
                        (i / 4) / (target_width as int),
                        (i / 4) % (target_width as int),
                        i % 4,
                    ) as u8,
            decreases target_width - column,
        {
            // The first and last column which are consolidated in this output
            // pixel.
            let column_start: usize = factor.edge(column, width);
            let column_end: usize = factor.edge(column + 1, width);
            proof {
                lemma_source_edges(*factor, column as int, width as int);
            }
            let sums = sum_box(
                buffer,
                width,
                height,
                line_start,
                line_end,
                column_start,
                column_end,
            );
            let pixels_picked: u128 = sums.4;
            let ghost start: int = 4 * (line * target_width + column);
            proof {
                crate::ft::bitmap::lemma_pixel_index(
                    target_width as int,
                    line as int,
                    column as int,
                );
            }
            // One pixel of the output for the whole source rectangle.
            packed.push((sums.0 / pixels_picked) as u8);
            packed.push((sums.1 / pixels_picked) as u8);
            packed.push((sums.2 / pixels_picked) as u8);
            packed.push((sums.3 / pixels_picked) as u8);
            column += 1;
        }
        assert((line + 1) * target_width == line * target_width + target_width) by (nonlinear_arith);
        line += 1;
    }
    assert(packed@ =~= factor.downsampled(buffer@, width as int, height as int));
    packed
}

/// Sums each channel over a rectangle of source pixels. Returns the four
/// sums and the number of pixels in the rectangle.
fn sum_box(
    buffer: &Vec<u8>,
    width: usize,
    height: usize,
    first_row: usize,
    end_row: usize,
    first_column: usize,
    end_column: usize,
) -> (sums: (u128, u128, u128, u128, u128))
    requires
        width <= i32::MAX,
        height <= i32::MAX,
        buffer@.len() >= 4 * (width * height),
        first_row < end_row <= height,
        first_column < end_column <= width,
    ensures
        sums.0 == box_sum(
            buffer@,
            width as int,
            first_row as int,
            end_row as int,
            first_column as int,
            end_column as int,
            0,
        ),
        sums.1 == box_sum(
            buffer@,
            width as int,
            first_row as int,
            end_row as int,
            first_column as int,
            end_column as int,
            1,
        ),
        sums.2 == box_sum(
            buffer@,
            width as int,
            first_row as int,
            end_row as int,
            first_column as int,
            end_column as int,
            2,
        ),
        sums.3 == box_sum(
            buffer@,
            width as int,
            first_row as int,
            end_row as int,
            first_column as int,
            end_column as int,
            3,
        ),
        sums.4 == (end_row - first_row) * (end_column - first_column),
        sums.4 > 0,
        sums.0 <= 255 * sums.4,
        sums.1 <= 255 * sums.4,
        sums.2 <= 255 * sums.4,
        sums.3 <= 255 * sums.4,
{
    let len: usize = buffer.len();
    let (mut r, mut g, mut b, mut a): (u128, u128, u128, u128) = (0, 0, 0, 0);
    let mut pixels_picked: u128 = 0;
    let ghost columns: int = end_column - first_column;
    let mut source_line: usize = first_row;
    while source_line < end_row
        invariant
            width <= i32::MAX,
            height <= i32::MAX,
            len == buffer@.len(),
            len >= 4 * (width * height),
            first_row <= source_line <= end_row <= height,
            first_column < end_column <= width,
            columns == end_column - first_column,
            pixels_picked == (source_line - first_row) * columns,
            r == box_sum(
                buffer@,
                width as int,
                first_row as int,
                source_line as int,
                first_column as int,
                end_column as int,
                0,
            ),
            g == box_sum(
                buffer@,
                width as int,
                first_row as int,
                source_line as int,
                first_column as int,
                end_column as int,
                1,
            ),
            b == box_sum(
                buffer@,
                width as int,
                first_row as int,
                source_line as int,
                first_column as int,
                end_column as int,
                2,
            ),
            a == box_sum(
                buffer@,
                width as int,
                first_row as int,
                source_line as int,
                first_column as int,
                end_column as int,
                3,
            ),
            r <= 255 * pixels_picked,
            g <= 255 * pixels_picked,
            b <= 255 * pixels_picked,
            a <= 255 * pixels_picked,
        decreases end_row - source_line,
    {
        proof {
            lemma_pixel_offset(
                width as int,
                height as int,
                source_line as int,
                first_column as int,
                len as int,
            );
            assert((source_line - first_row) * columns + columns <= 0x8000_0000 * 0x8000_0000) by (nonlinear_arith)
                requires
                    0 <= source_line - first_row < 0x8000_0000,
                    0 < columns <= 0x8000_0000,
            ;
            assert((source_line + 1 - first_row) * columns == (source_line - first_row) * columns + columns) by (nonlinear_arith);
        }
        let source_pixel_index: usize = source_line * width;
        let ghost before = (r, g, b, a, pixels_picked);
        let mut source_column: usize = first_column;
        while source_column < end_column
            invariant
                width <= i32::MAX,
                height <= i32::MAX,
                len == buffer@.len(),
                len >= 4 * (width * height),
                source_line < height,
                source_pixel_index == source_line * width,
                first_column <= source_column <= end_column <= width,
                before.4 + (end_column - first_column) <= 0x8000_0000 * 0x8000_0000,
                pixels_picked == before.4 + (source_column - first_column),
                r == before.0 + row_sum(
                    buffer@,
                    width as int,
                    source_line as int,
                    first_column as int,
                    source_column as int,
                    0,
                ),
                g == before.1 + row_sum(
                    buffer@,
                    width as int,
                    source_line as int,
                    first_column as int,
                    source_column as int,
                    1,
                ),
                b == before.2 + row_sum(
                    buffer@,
                    width as int,
                    source_line as int,
                    first_column as int,
                    source_column as int,
                    2,
                ),
                a == before.3 + row_sum(
                    buffer@,
                    width as int,
                    source_line as int,
                    first_column as int,
                    source_column as int,
                    3,
                ),
                r <= 255 * pixels_picked,
                g <= 255 * pixels_picked,
                b <= 255 * pixels_picked,
                a <= 255 * pixels_picked,
            decreases end_column - source_column,
        {
            proof {
                lemma_pixel_offset(
                    width as int,
                    height as int,
                    source_line as int,
                    source_column as int,
                    len as int,
                );
            }
            let offset: usize = (source_pixel_index + source_column) * 4;
            r += buffer[offset] as u128;
            g += buffer[offset + 1] as u128;
            b += buffer[offset + 2] as u128;
            a += buffer[offset + 3] as u128;
            pixels_picked += 1;
            source_column += 1;
        }
        source_line += 1;
    }
    assert(columns > 0 && end_row - first_row > 0 ==> (end_row - first_row) * columns > 0) by (nonlinear_arith);
    (r, g, b, a, pixels_picked)
}

/// Whether every pixel of a `width` by `height` RGBA image has the four
/// channel values of `color`.
pub open spec fn is_uniform(bytes: Seq<u8>, width: int, height: int, color: Seq<u8>) -> bool {
    &&& color.len() == 4
    &&& forall|row: int, column: int, channel: int|
        0 <= row < height && 0 <= column < width && 0 <= channel < 4 ==> #[trigger] source_channel(
            bytes,
            width,
            row,
            column,
            channel,
        ) == color[channel]
}

/// A sum over part of a row lies between zero and 255 for each pixel.
proof fn lemma_row_sum_bounds(
    bytes: Seq<u8>,
    width: int,
    row: int,
    first: int,
    end: int,
    channel: int,
)
    requires
        first <= end,
    ensures
        0 <= row_sum(bytes, width, row, first, end, channel) <= 255 * (end - first),
    decreases end - first,
{
    if first < end {
        lemma_row_sum_bounds(bytes, width, row, first, end - 1, channel);
    }
}

/// A sum over a rectangle lies between zero and 255 for each pixel.
pub proof fn lemma_box_sum_bounds(
    bytes: Seq<u8>,
    width: int,
    first_row: int,
    end_row: int,
    first_column: int,
    end_column: int,
    channel: int,
)
    requires
        first_row <= end_row,
        first_column <= end_column,
    ensures
        0 <= box_sum(
            bytes,
            width,
            first_row,
            end_row,
            first_column,
            end_column,
            channel,
        ) <= 255 * ((
        end_row - first_row) * (end_column - first_column)),
    decreases end_row - first_row,
{
    if first_row < end_row {
        lemma_box_sum_bounds(
            bytes,
            width,
            first_row,
            end_row - 1,
            first_column,
            end_column,
            channel,
        );
        lemma_row_sum_bounds(bytes, width, end_row - 1, first_column, end_column, channel);
        assert((end_row - first_row) * (end_column - first_column) == (end_row - 1 - first_row) * (
        end_column - first_column) + (end_column - first_column)) by (nonlinear_arith);
    } else {
        assert((end_row - first_row) * (end_column - first_column) == 0) by (nonlinear_arith)
            requires
                end_row - first_row == 0,
        ;
    }
}

/// The sum of a channel over part of a row of one value is that value for
/// each pixel.
proof fn lemma_row_sum_uniform(
    bytes: Seq<u8>,
    width: int,
    height: int,
    color: Seq<u8>,
    row: int,
    first: int,
    end: int,
    channel: int,
)
    requires
        is_uniform(bytes, width, height, color),
        0 <= row < height,
        0 <= first <= end <= width,
        0 <= channel < 4,
    ensures
        row_sum(bytes, width, row, first, end, channel) == (end - first) * color[channel],
    decreases end - first,
{
    if first < end {
        lemma_row_sum_uniform(bytes, width, height, color, row, first, end - 1, channel);
        assert(source_channel(bytes, width, row, end - 1, channel) == color[channel]);
        assert((end - first) * color[channel] == (end - 1 - first) * color[channel] + color[channel])
            by (nonlinear_arith);
    } else {
        assert((end - first) * color[channel] == 0) by (nonlinear_arith)
            requires
                end - first == 0,
        ;
    }
}

/// The sum of a channel over a rectangle of one value is that value for
/// each pixel.
proof fn lemma_box_sum_uniform(
    bytes: Seq<u8>,
    width: int,
    height: int,
    color: Seq<u8>,
    first_row: int,
    end_row: int,
    first_column: int,
    end_column: int,
    channel: int,
)
    requires
        is_uniform(bytes, width, height, color),
        0 <= first_row <= end_row <= height,
        0 <= first_column <= end_column <= width,
        0 <= channel < 4,
    ensures
        box_sum(bytes, width, first_row, end_row, first_column, end_column, channel) == ((end_row
            - first_row) * (end_column - first_column)) * color[channel],
    decreases end_row - first_row,
{
    let columns = end_column - first_column;
    let value = color[channel] as int;
    if first_row < end_row {
        lemma_box_sum_uniform(
            bytes,
            width,
            height,
            color,
            first_row,
            end_row - 1,
            first_column,
            end_column,
            channel,
        );
        lemma_row_sum_uniform(
            bytes,
            width,
            height,
            color,
            end_row - 1,
            first_column,
            end_column,
            channel,
        );
        assert(((end_row - first_row) * columns) * value == ((end_row - 1 - first_row) * columns)
            * value + columns * value) by (nonlinear_arith);
    } else {
        assert(((end_row - first_row) * columns) * value == 0) by (nonlinear_arith)
            requires
                end_row - first_row == 0,
        ;
    }
}

impl FixupFactor {
    /// Each byte of a downsampled image is a mean of bytes, so it is a byte
    /// itself: nothing is cut off when it is stored.
    pub proof fn lemma_averaged_is_byte(
        self,
        bytes: Seq<u8>,
        width: int,
        height: int,
        row: int,
        column: int,
        channel: int,
    )
        requires
            0 < self.spec_numerator() < self.spec_denominator(),
            0 <= row < self.scaled_len(height),
            0 <= column < self.scaled_len(width),
        ensures
            0 <= self.averaged(bytes, width, row, column, channel) <= 255,
    {
        lemma_source_edges(self, row, height);
        lemma_source_edges(self, column, width);
        let first_row = self.source_edge(row);
        let end_row = self.source_edge(row + 1);
        let first_column = self.source_edge(column);
        let end_column = self.source_edge(column + 1);
        let count = (end_row - first_row) * (end_column - first_column);
        let sum = box_sum(bytes, width, first_row, end_row, first_column, end_column, channel);
        lemma_box_sum_bounds(bytes, width, first_row, end_row, first_column, end_column, channel);
        assert(count > 0) by (nonlinear_arith)
            requires
                count == (end_row - first_row) * (end_column - first_column),
                end_row - first_row > 0,
                end_column - first_column > 0,
        ;
        assert(0 <= sum / count <= 255) by (nonlinear_arith)
            requires
                0 <= sum <= 255 * count,
                count > 0,
        ;
    }

    /// A factor of one, or above it, leaves every glyph as it is.
    pub proof fn lemma_factor_one_keeps_glyph(self, glyph: GlyphView)
        requires
            self.spec_numerator() >= self.spec_denominator(),
        ensures
            self.scaled_glyph(glyph) == glyph,
    {
    }

    /// Downsampling an image of one color gives that color in every pixel,
    /// so the mean of the output is the mean of the input.
    pub proof fn lemma_downsample_uniform(
        self,
        bytes: Seq<u8>,
        width: int,
        height: int,
        color: Seq<u8>,
    )
        requires
            0 < self.spec_numerator() < self.spec_denominator(),
            0 <= width,
            0 <= height,
            is_uniform(bytes, width, height, color),
        ensures
            forall|i: int|
                0 <= i < self.downsampled(
                    bytes,
                    width,
                    height,
                ).len() ==> #[trigger] self.downsampled(
                    bytes,
                    width,
                    height,
                )[i] == color[i % 4],
    {
        let target_width = self.scaled_len(width);
        let target_height = self.scaled_len(height);
        assert(0 <= target_width && 0 <= target_height) by (nonlinear_arith)
            requires
                target_width == (width * self.spec_numerator()) / self.spec_denominator(),
                target_height == (height * self.spec_numerator()) / self.spec_denominator(),
                0 <= width,
                0 <= height,
                0 < self.spec_numerator() < self.spec_denominator(),
        ;
        let out = self.downsampled(bytes, width, height);
        assert forall|i: int| 0 <= i < out.len() implies #[trigger] out[i] == color[i % 4] by {
            let pixel = i / 4;
            let channel = i % 4;
            assert(0 <= pixel < target_height * target_width);
            assert(target_width > 0) by (nonlinear_arith)
                requires
                    0 <= target_width,
                    0 < target_height * target_width,
            ;
            let row = pixel / target_width;
            let column = pixel % target_width;
            vstd::arithmetic::div_mod::lemma_fundamental_div_mod(pixel, target_width);
            assert(0 <= row < target_height) by (nonlinear_arith)
                requires
                    pixel == target_width * row + column,
                    0 <= column < target_width,
                    0 <= pixel < target_height * target_width,
            ;
            lemma_source_edges(self, row, height);
            lemma_source_edges(self, column, width);
            let first_row = self.source_edge(row);
            let end_row = self.source_edge(row + 1);
            let first_column = self.source_edge(column);
            let end_column = self.source_edge(column + 1);
            let count = (end_row - first_row) * (end_column - first_column);
            lemma_box_sum_uniform(
                bytes,
                width,
                height,
                color,
                first_row,
                end_row,
                first_column,
                end_column,
                channel,
            );
            let value = color[channel] as int;
            assert((count * value) / count == value) by (nonlinear_arith)
                requires
                    count == (end_row - first_row) * (end_column - first_column),
                    end_row - first_row > 0,
                    end_column - first_column > 0,
            ;
            assert(self.averaged(bytes, width, row, column, channel) == value);
        }
    }

    /// Computes [`FixupFactor::scaled_advance`].
    pub fn scale_advance(&self, advance: i32) -> (scaled: i32)
        ensures
            scaled == self.scaled_advance(advance as int),
    {
        proof {
            use_type_invariant(self);
        }
        let numerator: u128 = self.numerator as u128;
        let denominator: u128 = self.denominator as u128;
        let magnitude: u128 = if advance < 0 {
            (-(advance as i64)) as u128
        } else {
            advance as u128
        };
        assert(2 * magnitude * numerator <= 2 * 0x8000_0000 * 0x1_0000_0000) by (nonlinear_arith)
            requires
                magnitude <= 0x8000_0000,
                numerator <= 0x1_0000_0000,
        ;
        let nearest: u128 = (2 * magnitude * numerator + denominator) / (2 * denominator);
        proof {
            let n = self.spec_numerator();
            let d = self.spec_denominator();
            let m = magnitude as int;
            assert(nearest as int == (2 * m * n + d) / (2 * d));
        }
        if advance < 0 {
            if nearest > 0x8000_0000 {
                i32::MIN
            } else {
                (-(nearest as i64)) as i32
            }
        } else {
            if nearest > 0x7fff_ffff {
                i32::MAX
            } else {
                nearest as i32
            }
        }
    }

    /// Computes [`FixupFactor::scaled_len`] for a factor below one.
    fn scale_len(&self, len: i32) -> (scaled: i32)
        requires
            self.shrinks(),
            0 <= len,
        ensures
            scaled == self.scaled_len(len as int),
            0 <= scaled <= len,
    {
        proof {
            use_type_invariant(self);
        }
        let numerator: u64 = self.numerator as u64;
        let denominator: u64 = self.denominator as u64;
        assert(len * numerator <= 0x8000_0000 * 0x1_0000_0000) by (nonlinear_arith)
            requires
                0 <= len <= 0x8000_0000,
                numerator <= 0x1_0000_0000,
        ;
        let scaled: u64 = (len as u64 * numerator) / denominator;
        assert(scaled <= len) by (nonlinear_arith)
            requires
                scaled == (len * numerator) / (denominator as int),
                0 <= numerator < denominator,
                0 <= len,
        ;
        scaled as i32
    }

    /// Computes [`FixupFactor::scaled_offset`] for a factor below one.
    fn scale_offset(&self, offset: i32) -> (scaled: i32)
        requires
            self.shrinks(),
        ensures
            scaled == self.scaled_offset(offset as int),
    {
        proof {
            use_type_invariant(self);
        }
        let numerator: u64 = self.numerator as u64;
        let denominator: u64 = self.denominator as u64;
        let magnitude: u64 = if offset < 0 {
            (-(offset as i64)) as u64
        } else {
            offset as u64
        };
        assert(magnitude * numerator <= 0x8000_0000 * 0x1_0000_0000) by (nonlinear_arith)
            requires
                magnitude <= 0x8000_0000,
                numerator <= 0x1_0000_0000,
        ;
        let scaled: u64 = (magnitude * numerator) / denominator;
        assert(scaled <= magnitude) by (nonlinear_arith)
            requires
                scaled == (magnitude * numerator) / (denominator as int),
                0 <= numerator < denominator,
        ;
        if offset < 0 {
            (-(scaled as i64)) as i32
        } else {
            scaled as i32
        }
    }
}

/// Downscale a bitmap by a fixed factor.
///
/// This takes the `bitmap_glyph` as input and returns the glyph's content
/// downscaled by `fixup_factor`. Only colored buffers which are bigger than
/// required are scaled: every other glyph comes back as it was.
pub fn downsample_bitmap(
    bitmap_glyph: RasterizedGlyph,
    fixup_factor: FixupFactor,
) -> (scaled: RasterizedGlyph)
    requires
        bitmap_glyph.buffer is Rgba && fixup_factor.shrinks() ==> bitmap_glyph.is_complete(),
    ensures
        scaled@ == fixup_factor.scaled_glyph(bitmap_glyph@),
        !(bitmap_glyph.buffer is Rgba && fixup_factor.shrinks()) ==> scaled == bitmap_glyph,
        bitmap_glyph.buffer is Rgba && fixup_factor.shrinks() ==> scaled.is_complete(),
{
    if fixup_factor.numerator() >= fixup_factor.denominator() {
        return bitmap_glyph;
    }
    let downsampled_buffer: Vec<u8> = match &bitmap_glyph.buffer {
        BitmapBuffer::Rgba(buffer) => box_filter(
            buffer,
            bitmap_glyph.width as usize,
            bitmap_glyph.height as usize,
            &fixup_factor,
        ),
        BitmapBuffer::Rgb(_) => {
            return bitmap_glyph;
        },
    };
    let target_width: i32 = fixup_factor.scale_len(bitmap_glyph.width);
    let target_height: i32 = fixup_factor.scale_len(bitmap_glyph.height);
    assert(target_width * target_height == target_height * target_width) by (nonlinear_arith);
    RasterizedGlyph {
        character: bitmap_glyph.character,
        width: target_width,
        height: target_height,
        // Downscale the metrics.
        top: fixup_factor.scale_offset(bitmap_glyph.top),
        left: fixup_factor.scale_offset(bitmap_glyph.left),
        advance: bitmap_glyph.advance,
        buffer: BitmapBuffer::Rgba(downsampled_buffer),
    }
}

} // verus!

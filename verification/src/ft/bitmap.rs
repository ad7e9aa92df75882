//! Native bitmaps and their conversion to canonical pixel buffers.

use vstd::prelude::*;

use crate::ft::fc::Rgba;
use crate::glyph::BitmapBuffer;

verus! {

/// How a native bitmap stores its pixels.
#[derive(Debug, Copy, Clone, PartialEq, Eq, Structural)]
pub enum PixelMode {
    /// One bit per pixel, the leftmost pixel in the highest bit of a byte.
    Mono,
    /// One byte per pixel.
    Gray,
    /// One byte per subpixel, three subpixels side by side to a pixel: the
    /// width counts subpixels.
    Lcd,
    /// One byte per subpixel, three subpixels one above the other to a pixel:
    /// the rows count subpixels.
    LcdV,
    /// Four bytes per pixel: blue, green, red, alpha.
    Bgra,
}

impl PixelMode {
    /// Number of bytes that a row of `width` entries takes, padding aside.
    pub open spec fn row_bytes(self, width: int) -> int {
        match self {
            PixelMode::Mono => (width + 7) / 8,
            PixelMode::Gray => width,
            PixelMode::Lcd => width,
            PixelMode::LcdV => width,
            PixelMode::Bgra => 4 * width,
        }
    }
}

/// A bitmap as the native rasterizer hands it out: rows of `pitch` bytes
/// each, of which the first `row_bytes` hold pixels.
#[derive(Debug)]
pub struct NativeBitmap {
    rows: usize,
    width: usize,
    pitch: usize,
    pixel_mode: PixelMode,
    buffer: Vec<u8>,
}

/// The value of one pixel of a monochrome row: 255 where the bit is set.
/// `column` counts from the left, so column 0 is the byte's highest bit.
pub open spec fn mono_value(byte: u8, column: int) -> u8 {
    if (byte >> ((7 - column % 8) as u8)) & 1u8 == 1u8 {
        255
    } else {
        0
    }
}

impl NativeBitmap {
    /// Whether the parts describe a bitmap: no negative count, rows that fit
    /// the pitch, whole pixels, and a buffer that holds every row.
    pub open spec fn fits(
        rows: int,
        width: int,
        pitch: int,
        pixel_mode: PixelMode,
        len: int,
    ) -> bool {
        let stride = if pitch < 0 { -pitch } else { pitch };
        &&& 0 <= rows
        &&& 0 <= width
        &&& pixel_mode.row_bytes(width) <= stride
        &&& pixel_mode == PixelMode::Lcd ==> width % 3 == 0
        &&& stride * rows <= len
    }

    #[verifier::type_invariant]
    spec fn inv(&self) -> bool {
        &&& self.rows <= i32::MAX
        &&& self.width <= i32::MAX
        &&& NativeBitmap::fits(
            self.rows as int,
            self.width as int,
            self.pitch as int,
            self.pixel_mode,
            self.buffer@.len() as int,
        )
    }

    /// Number of rows of the native bitmap.
    pub closed spec fn spec_rows(&self) -> int {
        self.rows as int
    }

    /// Number of entries in a row of the native bitmap.
    pub closed spec fn spec_width(&self) -> int {
        self.width as int
    }

    /// Number of bytes from one row to the next.
    pub closed spec fn spec_pitch(&self) -> int {
        self.pitch as int
    }

    pub closed spec fn spec_pixel_mode(&self) -> PixelMode {
        self.pixel_mode
    }

    /// The bytes of the native bitmap.
    pub closed spec fn spec_buffer(&self) -> Seq<u8> {
        self.buffer@
    }

    /// A bitmap of `rows` rows of `width` entries, each row `pitch` bytes
    /// after the one before; the sign of `pitch` is dropped. `None` where the
    /// parts do not fit together.
    pub fn new(
        rows: i32,
        width: i32,
        pitch: i32,
        pixel_mode: PixelMode,
        buffer: Vec<u8>,
    ) -> (bitmap: Option<NativeBitmap>)
        ensures
            bitmap is Some <==> NativeBitmap::fits(
                rows as int,
                width as int,
                pitch as int,
                pixel_mode,
                buffer@.len() as int,
            ),
            bitmap matches Some(b) ==> {
                &&& b.spec_rows() == rows
                &&& b.spec_width() == width
                &&& b.spec_pitch() == if pitch < 0 { -pitch } else { pitch as int }
                &&& b.spec_pixel_mode() == pixel_mode
                &&& b.spec_buffer() == buffer@
            },
    {
        if rows < 0 || width < 0 {
            return None;
        }
        let stride: u64 = if pitch < 0 {
            (-(pitch as i64)) as u64
        } else {
            pitch as u64
        };
        let row_bytes: u64 = match pixel_mode {
            PixelMode::Mono => (width as u64 + 7) / 8,
            PixelMode::Gray => width as u64,
            PixelMode::Lcd => width as u64,
            PixelMode::LcdV => width as u64,
            PixelMode::Bgra => 4 * (width as u64),
        };
        if row_bytes > stride {
            return None;
        }
        if pixel_mode == PixelMode::Lcd && width % 3 != 0 {
            return None;
        }
        assert(stride * (rows as u64) <= 0x8000_0000 * 0x8000_0000) by (nonlinear_arith)
            requires
                stride <= 0x8000_0000,
                0 <= rows <= 0x8000_0000,
        ;
        let needed: u64 = stride * (rows as u64);
        if needed > buffer.len() as u64 {
            return None;
        }
        assert(stride <= usize::MAX) by (nonlinear_arith)
            requires
                stride * (rows as u64) <= usize::MAX,
                stride <= 0x8000_0000,
                0 <= rows,
                usize::MAX >= 0xffff_ffff,
        ;
        Some(
            NativeBitmap {
                rows: rows as usize,
                width: width as usize,
                pitch: stride as usize,
                pixel_mode,
                buffer,
            },
        )
    }

    /// Number of rows of the native bitmap.
    pub fn rows(&self) -> (rows: i32)
        ensures
            rows == self.spec_rows(),
    {
        proof {
            use_type_invariant(self);
        }
        self.rows as i32
    }

    /// Number of entries in a row of the native bitmap.
    pub fn width(&self) -> (width: i32)
        ensures
            width == self.spec_width(),
    {
        proof {
            use_type_invariant(self);
        }
        self.width as i32
    }

    /// Number of bytes from one row to the next.
    pub fn pitch(&self) -> (pitch: usize)
        ensures
            pitch == self.spec_pitch(),
    {
        self.pitch
    }

    pub fn pixel_mode(&self) -> (pixel_mode: PixelMode)
        ensures
            pixel_mode == self.spec_pixel_mode(),
    {
        self.pixel_mode
    }

    /// The bytes of the native bitmap.
    pub fn buffer(&self) -> (buffer: &Vec<u8>)
        ensures
            buffer@ == self.spec_buffer(),
    {
        &self.buffer
    }

    /// Number of pixel rows: a third of the native rows where the subpixels
    /// stand one above the other.
    pub open spec fn pixel_rows(&self) -> int {
        if self.spec_pixel_mode() == PixelMode::LcdV {
            self.spec_rows() / 3
        } else {
            self.spec_rows()
        }
    }

    /// Number of pixels in a row: a third of the native width where the
    /// subpixels stand side by side.
    pub open spec fn pixel_columns(&self) -> int {
        if self.spec_pixel_mode() == PixelMode::Lcd {
            self.spec_width() / 3
        } else {
            self.spec_width()
        }
    }

    /// Number of bytes that one pixel takes in the canonical buffer.
    pub open spec fn channels(&self) -> int {
        if self.spec_pixel_mode() == PixelMode::Bgra {
            4
        } else {
            3
        }
    }

    /// The byte of channel `channel` of the pixel at `row` and `column` in
    /// the canonical buffer.
    ///
    /// Monochrome and gray pixels give one value to all three channels.
    /// Subpixels are taken in the order red, green, blue, which is their
    /// native order unless the geometry `rgba` says that blue comes first.
    /// Color pixels are read one after the other from the start of the
    /// buffer, and red and blue change places.
    pub open spec fn channel(&self, rgba: Rgba, row: int, column: int, channel: int) -> u8 {
        let bytes = self.spec_buffer();
        let pitch = self.spec_pitch();
        match self.spec_pixel_mode() {
            PixelMode::Mono => mono_value(bytes[row * pitch + column / 8], column),
            PixelMode::Gray => bytes[row * pitch + column],
            PixelMode::Lcd => {
                let sub = if rgba == Rgba::Bgr { 2 - channel } else { channel };
                bytes[row * pitch + 3 * column + sub]
            },
            PixelMode::LcdV => {
                let sub = if rgba == Rgba::Vbgr { 2 - channel } else { channel };
                bytes[(3 * row + sub) * pitch + column]
            },
            PixelMode::Bgra => {
                let sub = if channel == 0 { 2 } else if channel == 2 { 0 } else { channel };
                bytes[4 * (row * self.spec_width() + column) + sub]
            },
        }
    }

    /// The canonical buffer: the pixels row by row, each with its channels.
    pub open spec fn normalized(&self, rgba: Rgba) -> Seq<u8> {
        Seq::new(
            (self.channels() * (self.pixel_rows() * self.pixel_columns())) as nat,
            |i: int|
                self.channel(
                    rgba,
                    (i / self.channels()) / self.pixel_columns(),
                    (i / self.channels()) % self.pixel_columns(),
                    i % self.channels(),
                ),
        )
    }
}

/// A pixel's place in its row and the row's number, from the pixel's number.
pub(crate) proof fn lemma_pixel_index(columns: int, row: int, column: int)
    requires
        0 <= column < columns,
        0 <= row,
    ensures
        (row * columns + column) / columns == row,
        (row * columns + column) % columns == column,
        0 <= row * columns,
        (row + 1) * columns == row * columns + columns,
{
    vstd::arithmetic::div_mod::lemma_fundamental_div_mod_converse(
        row * columns + column,
        columns,
        row,
        column,
    );
    assert(0 <= row * columns) by (nonlinear_arith)
        requires
            0 <= row,
            0 <= columns,
    ;
    assert((row + 1) * columns == row * columns + columns) by (nonlinear_arith);
}

/// A byte of row `row` lies inside a buffer that holds `rows` rows.
proof fn lemma_row_offset(pitch: int, rows: int, row: int, offset: int, len: int)
    requires
        0 <= row < rows,
        0 <= offset < pitch,
        pitch * rows <= len,
    ensures
        0 <= row * pitch,
        row * pitch + offset < len,
{
    assert(0 <= row * pitch && row * pitch + pitch <= pitch * rows) by (nonlinear_arith)
        requires
            0 <= row < rows,
            0 <= pitch,
    ;
}

/// The bytes of a color pixel lie inside a buffer that holds `rows` rows of
/// at least `4 * width` bytes.
proof fn lemma_color_offset(pitch: int, rows: int, width: int, row: int, column: int, len: int)
    requires
        0 <= row < rows,
        0 <= column < width,
        4 * width <= pitch,
        pitch * rows <= len,
    ensures
        0 <= row * width,
        4 * (row * width + column) + 3 < len,
{
    assert(0 <= row * width && 4 * (row * width + width) <= pitch * rows) by (nonlinear_arith)
        requires
            0 <= row < rows,
            0 <= width,
            4 * width <= pitch,
    ;
}

impl NativeBitmap {
    /// Reads one channel of one pixel.
    fn sample(&self, rgba: &Rgba, row: usize, column: usize, channel: usize) -> (value: u8)
        requires
            row < self.pixel_rows(),
            column < self.pixel_columns(),
            channel < self.channels(),
        ensures
            value == self.channel(*rgba, row as int, column as int, channel as int),
    {
        proof {
            use_type_invariant(self);
        }
        let len: usize = self.buffer.len();
        match self.pixel_mode {
            PixelMode::Mono => {
                proof {
                    lemma_row_offset(
                        self.pitch as int,
                        self.rows as int,
                        row as int,
                        column as int / 8,
                        len as int,
                    );
                }
                let byte: u8 = self.buffer[row * self.pitch + column / 8];
                let shift: u8 = (7 - column % 8) as u8;
                if (byte >> shift) & 1u8 == 1u8 {
                    255
                } else {
                    0
                }
            },
            PixelMode::Gray => {
                proof {
                    lemma_row_offset(
                        self.pitch as int,
                        self.rows as int,
                        row as int,
                        column as int,
                        len as int,
                    );
                }
                self.buffer[row * self.pitch + column]
            },
            PixelMode::Lcd => {
                let sub: usize = match rgba {
                    Rgba::Bgr => 2 - channel,
                    _ => channel,
                };
                proof {
                    lemma_row_offset(
                        self.pitch as int,
                        self.rows as int,
                        row as int,
                        3 * column + sub,
                        len as int,
                    );
                }
                self.buffer[row * self.pitch + 3 * column + sub]
            },
            PixelMode::LcdV => {
                let sub: usize = match rgba {
                    Rgba::Vbgr => 2 - channel,
                    _ => channel,
                };
                proof {
                    lemma_row_offset(
                        self.pitch as int,
                        self.rows as int,
                        3 * row + sub,
                        column as int,
                        len as int,
                    );
                }
                self.buffer[(3 * row + sub) * self.pitch + column]
            },
            PixelMode::Bgra => {
                let sub: usize = if channel == 0 {
                    2
                } else if channel == 2 {
                    0
                } else {
                    channel
                };
                proof {
                    lemma_color_offset(
                        self.pitch as int,
                        self.rows as int,
                        self.width as int,
                        row as int,
                        column as int,
                        len as int,
                    );
                }
                self.buffer[4 * (row * self.width + column) + sub]
            },
        }
    }

    /// Given a native bitmap, returns the number of pixel rows, the number
    /// of pixels per row and the packed buffer with one byte per channel.
    ///
    /// The buffer is RGBA for a color bitmap and RGB for every other.
    pub fn normalize_buffer(&self, rgba: &Rgba) -> (normalized: (i32, i32, BitmapBuffer))
        ensures
            normalized.0 == self.pixel_rows(),
            normalized.1 == self.pixel_columns(),
            normalized.2 is Rgba <==> self.spec_pixel_mode() == PixelMode::Bgra,
            normalized.2.bytes() == self.normalized(*rgba),
            normalized.2.covers(normalized.1 as int, normalized.0 as int),
    {
        proof {
            use_type_invariant(self);
        }
        let rows: usize = match self.pixel_mode {
            PixelMode::LcdV => self.rows / 3,
            _ => self.rows,
        };
        let columns: usize = match self.pixel_mode {
            PixelMode::Lcd => self.width / 3,
            _ => self.width,
        };
        let channels: usize = match self.pixel_mode {
            PixelMode::Bgra => 4,
            _ => 3,
        };
        let mut packed: Vec<u8> = Vec::new();
        let mut row: usize = 0;
        while row < rows
            invariant
                rows == self.pixel_rows(),
                columns == self.pixel_columns(),
                channels == self.channels(),
                row <= rows,
                packed@.len() == channels * (row * columns),
                forall|i: int|
                    0 <= i < packed@.len() ==> packed@[i] == self.channel(
                        *rgba,
                        (i / (channels as int)) / (columns as int),
                        (i / (channels as int)) % (columns as int),
                        i % (channels as int),
                    ),
            decreases rows - row,
        {
            let mut column: usize = 0;
            while column < columns
                invariant
                    rows == self.pixel_rows(),
                    columns == self.pixel_columns(),
                    channels == self.channels(),
                    row < rows,
                    column <= columns,
                    packed@.len() == channels * (row * columns + column),
                    forall|i: int|
                        0 <= i < packed@.len() ==> packed@[i] == self.channel(
                            *rgba,
                            (i / (channels as int)) / (columns as int),
                            (i / (channels as int)) % (columns as int),
                            i % (channels as int),
                        ),
                decreases columns - column,
            {
                let mut channel: usize = 0;
                while channel < channels
                    invariant
                        rows == self.pixel_rows(),
                        columns == self.pixel_columns(),
                        channels == self.channels(),
                        row < rows,
                        column < columns,
                        channel <= channels,
                        packed@.len() == channels * (row * columns + column) + channel,
                        forall|i: int|
                            0 <= i < packed@.len() ==> packed@[i] == self.channel(
                                *rgba,
                                (i / (channels as int)) / (columns as int),
                                (i / (channels as int)) % (columns as int),
                                i % (channels as int),
                            ),
                    decreases channels - channel,
                {
                    proof {
                        lemma_pixel_index(columns as int, row as int, column as int);
                    }
                    let value: u8 = self.sample(rgba, row, column, channel);
                    packed.push(value);
                    channel += 1;
                }
                column += 1;
            }
            assert((row + 1) * columns == row * columns + columns) by (nonlinear_arith);
            row += 1;
        }
        assert(packed@ =~= self.normalized(*rgba));
        assert(rows * columns == columns * rows) by (nonlinear_arith);
        let buffer = match self.pixel_mode {
            PixelMode::Bgra => BitmapBuffer::Rgba(packed),
            _ => BitmapBuffer::Rgb(packed),
        };
        (rows as i32, columns as i32, buffer)
    }
}

} // verus!

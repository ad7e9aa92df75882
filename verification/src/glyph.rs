//! Rasterized glyphs and their pixel buffers.

use vstd::prelude::*;

verus! {

/// Pixels of a rasterized glyph, row by row, one byte per channel.
#[derive(Debug)]
pub enum BitmapBuffer {
    /// RGB alphamask.
    Rgb(Vec<u8>),
    /// RGBA pixels with premultiplied alpha.
    Rgba(Vec<u8>),
}

impl BitmapBuffer {
    /// The bytes of the buffer.
    pub open spec fn bytes(self) -> Seq<u8> {
        match self {
            BitmapBuffer::Rgb(bytes) => bytes@,
            BitmapBuffer::Rgba(bytes) => bytes@,
        }
    }

    /// Number of bytes that one pixel takes.
    pub open spec fn channels(self) -> int {
        match self {
            BitmapBuffer::Rgb(_) => 3,
            BitmapBuffer::Rgba(_) => 4,
        }
    }

    /// Whether the buffer holds enough bytes for `width` times `height`
    /// pixels.
    pub open spec fn covers(self, width: int, height: int) -> bool {
        &&& 0 <= width
        &&& 0 <= height
        &&& self.bytes().len() >= self.channels() * (width * height)
    }

    /// The bytes of the buffer.
    pub fn as_bytes(&self) -> (bytes: &Vec<u8>)
        ensures
            bytes@ == self.bytes(),
    {
        match self {
            BitmapBuffer::Rgb(bytes) => bytes,
            BitmapBuffer::Rgba(bytes) => bytes,
        }
    }
}

impl Clone for BitmapBuffer {
    fn clone(&self) -> (copy: BitmapBuffer)
        ensures
            copy.bytes() == self.bytes(),
            copy.channels() == self.channels(),
    {
        match self {
            BitmapBuffer::Rgb(bytes) => BitmapBuffer::Rgb(bytes.clone()),
            BitmapBuffer::Rgba(bytes) => BitmapBuffer::Rgba(bytes.clone()),
        }
    }
}

/// One character as pixels, with its placement.
#[derive(Debug)]
pub struct RasterizedGlyph {
    pub character: char,
    pub width: i32,
    pub height: i32,
    pub top: i32,
    pub left: i32,
    pub advance: (i32, i32),
    pub buffer: BitmapBuffer,
}

/// What a [`RasterizedGlyph`] stands for in contracts.
pub struct GlyphView {
    pub character: char,
    pub width: int,
    pub height: int,
    pub top: int,
    pub left: int,
    pub advance: (int, int),
    /// Whether the buffer is RGBA.
    pub colored: bool,
    pub bytes: Seq<u8>,
}

impl View for RasterizedGlyph {
    type V = GlyphView;

    open spec fn view(&self) -> GlyphView {
        GlyphView {
            character: self.character,
            width: self.width as int,
            height: self.height as int,
            top: self.top as int,
            left: self.left as int,
            advance: (self.advance.0 as int, self.advance.1 as int),
            colored: self.buffer is Rgba,
            bytes: self.buffer.bytes(),
        }
    }
}

impl RasterizedGlyph {
    /// Whether the buffer holds a pixel for each position of the glyph.
    pub open spec fn is_complete(self) -> bool {
        self.buffer.covers(self.width as int, self.height as int)
    }
}

impl Clone for RasterizedGlyph {
    fn clone(&self) -> (copy: RasterizedGlyph)
        ensures
            copy@ == self@,
    {
        RasterizedGlyph {
            character: self.character,
            width: self.width,
            height: self.height,
            top: self.top,
            left: self.left,
            advance: (self.advance.0, self.advance.1),
            buffer: self.buffer.clone(),
        }
    }
}

impl Default for RasterizedGlyph {
    /// A blank with no pixels.
    fn default() -> (glyph: RasterizedGlyph)
        ensures
            glyph@ == (GlyphView {
                character: ' ',
                width: 0,
                height: 0,
                top: 0,
                left: 0,
                advance: (0, 0),
                colored: false,
                bytes: Seq::empty(),
            }),
    {
        RasterizedGlyph {
            character: ' ',
            width: 0,
            height: 0,
            top: 0,
            left: 0,
            advance: (0, 0),
            buffer: BitmapBuffer::Rgb(Vec::new()),
        }
    }
}

} // verus!

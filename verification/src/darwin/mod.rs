//! Decisions of a rasterizer that sits on CoreText.

use vstd::prelude::*;

pub mod byte_order;

use crate::cache::{cached_after, loaded_key, KeyCache, Slot};
use crate::error::Error;
use crate::font::{is_first_named, FontDesc, FontKey, KeyAllocator, Size, Slant, Weight};
use crate::glyph::{BitmapBuffer, GlyphView, RasterizedGlyph};

verus! {

/// Keeps the keys of the fonts that were loaded, one for each description
/// and size.
#[derive(Debug)]
pub struct CoreTextRasterizer {
    keys: KeyCache,
}

/// Whether `traits[position]` is the first pair of bold and italic that a
/// font of the given weight and slant has: bold for a bold weight, italic
/// for every slant but the normal one.
pub open spec fn is_first_matching(
    traits: Seq<(bool, bool)>,
    slant: Slant,
    weight: Weight,
    position: int,
) -> bool {
    let wanted = (weight == Weight::Bold, slant != Slant::Normal);
    &&& 0 <= position < traits.len()
    &&& traits[position] == wanted
    &&& forall|i: int| 0 <= i < position ==> #[trigger] traits[i] != wanted
}

impl CoreTextRasterizer {
    /// The keys of the loaded fonts.
    pub closed spec fn keys(&self) -> Map<Slot, FontKey> {
        self.keys@
    }

    /// The allocator that makes the key of the next new font.
    pub closed spec fn allocator(&self) -> KeyAllocator {
        self.keys.allocator()
    }

    /// A rasterizer without fonts.
    pub fn new() -> (rasterizer: CoreTextRasterizer)
        ensures
            rasterizer.keys() == Map::<Slot, FontKey>::empty(),
            rasterizer.allocator().next_token() == 0,
    {
        CoreTextRasterizer { keys: KeyCache::new() }
    }

    /// The key that the font was loaded under, if it was loaded.
    pub fn loaded_font(&self, desc: &FontDesc, size: Size) -> (key: Option<FontKey>)
        ensures
            key == if self.keys().contains_key(Slot { desc: desc@, size: Some(size) }) {
                Some(self.keys()[Slot { desc: desc@, size: Some(size) }])
            } else {
                None
            },
    {
        self.keys.get(desc, Some(size))
    }

    /// Load the font described by `desc` at `size`: returns the key that it
    /// was loaded under before, or else a new key if `found` says that the
    /// platform has such a font. Fails with `FontNotFound` where the font is
    /// new and was not found.
    pub fn load_font(
        &mut self,
        desc: &FontDesc,
        size: Size,
        found: bool,
    ) -> (loaded: Result<FontKey, Error>)
        ensures
            match loaded_key(
                old(self).keys(),
                old(self).allocator().next_token(),
                Slot { desc: desc@, size: Some(size) },
                found,
            ) {
                Some(key) => loaded == Ok::<FontKey, Error>(key),
                None => loaded matches Err(Error::FontNotFound(missing)) && missing@ == desc@,
            },
            final(self).keys() == cached_after(
                old(self).keys(),
                old(self).allocator().next_token(),
                Slot { desc: desc@, size: Some(size) },
                found,
            ),
            final(self).allocator() == if !old(self).keys().contains_key(
                Slot { desc: desc@, size: Some(size) },
            ) && found {
                old(self).allocator().after(1)
            } else {
                old(self).allocator()
            },
    {
        self.keys.load(desc, Some(size), found)
    }

    /// Picks the font of a family by the name of its style: the position of
    /// the first of `style_names` that is `style`. Fails with `FontNotFound`
    /// where the family has no such style.
    pub fn get_specific_face(
        desc: &FontDesc,
        style: &String,
        style_names: &Vec<String>,
    ) -> (found: Result<usize, Error>)
        ensures
            match found {
                Ok(position) => is_first_named(style_names@, style@, position as int),
                Err(Error::FontNotFound(missing)) => missing@ == desc@ && forall|i: int|
                    0 <= i < style_names@.len() ==> (#[trigger] style_names@[i])@ != style@,
                Err(_) => false,
            },
    {
        match FontDesc::position_of_style(style, style_names) {
            Some(position) => Ok(position),
            None => Err(Error::FontNotFound(desc.duplicate())),
        }
    }

    /// Picks the font of a family by slant and weight: the position of the
    /// first of `traits`, the pairs of bold and italic of the family's
    /// fonts, that a font of this slant and weight has. Fails with
    /// `FontNotFound` where the family has no such font.
    pub fn get_matching_face(
        desc: &FontDesc,
        slant: Slant,
        weight: Weight,
        traits: &Vec<(bool, bool)>,
    ) -> (found: Result<usize, Error>)
        ensures
            match found {
                Ok(position) => is_first_matching(traits@, slant, weight, position as int),
                Err(Error::FontNotFound(missing)) => missing@ == desc@ && forall|i: int|
                    0 <= i < traits@.len() ==> #[trigger] traits@[i] != (
                        weight == Weight::Bold,
                        slant != Slant::Normal,
                    ),
                Err(_) => false,
            },
    {
        let bold: bool = weight == Weight::Bold;
        let italic: bool = slant != Slant::Normal;
        let mut position: usize = 0;
        while position < traits.len()
            invariant
                position <= traits@.len(),
                bold == (weight == Weight::Bold),
                italic == (slant != Slant::Normal),
                forall|i: int| 0 <= i < position ==> #[trigger] traits@[i] != (bold, italic),
            decreases traits@.len() - position,
        {
            let font: (bool, bool) = traits[position];
            if font.0 == bold && font.1 == italic {
                // Found the font we want.
                return Ok(position);
            }
            position += 1;
        }
        Err(Error::FontNotFound(desc.duplicate()))
    }
}

/// The glyph that a bitmap context of `width` by `height` pixels holds
/// after a character was drawn into it, where `bytes` are the pixels taken
/// out of the context. Without width or height the glyph is the blank one,
/// whatever the character.
pub open spec fn drawn_glyph(
    character: char,
    left: i32,
    top: i32,
    width: u32,
    height: u32,
    is_colored: bool,
    bytes: Seq<u8>,
) -> GlyphView {
    if width == 0 || height == 0 {
        GlyphView {
            character: ' ',
            width: 0,
            height: 0,
            top: 0,
            left: 0,
            advance: (0, 0),
            colored: false,
            bytes: Seq::empty(),
        }
    } else {
        GlyphView {
            character,
            width: width as int,
            height: height as int,
            top: top as int,
            left: left as int,
            advance: (0, 0),
            colored: is_colored,
            bytes,
        }
    }
}

/// The glyph that a bitmap context of `width` by `height` pixels holds
/// after a character was drawn into it, on a little-endian host.
///
/// `rasterized_pixels` are the context's bytes: blue, green, red, alpha. A
/// colored glyph keeps its alpha; every other glyph is an alpha mask of red,
/// green and blue. Without width or height the glyph is the blank one,
/// whatever the character.
pub fn glyph_from_pixels(
    character: char,
    left: i32,
    top: i32,
    width: u32,
    height: u32,
    is_colored: bool,
    rasterized_pixels: &[u8],
) -> (glyph: RasterizedGlyph)
    requires
        width <= i32::MAX,
        height <= i32::MAX,
    ensures
        glyph@ == drawn_glyph(
            character,
            left,
            top,
            width,
            height,
            is_colored,
            if is_colored {
                byte_order::little_endian::rgba_of(rasterized_pixels@)
            } else {
                byte_order::little_endian::rgb_of(rasterized_pixels@)
            },
        ),
{
    if width == 0 || height == 0 {
        return RasterizedGlyph::default();
    }
    let buffer = if is_colored {
        BitmapBuffer::Rgba(byte_order::little_endian::extract_rgba(rasterized_pixels))
    } else {
        BitmapBuffer::Rgb(byte_order::little_endian::extract_rgb(rasterized_pixels))
    };
    RasterizedGlyph {
        character,
        left,
        top,
        width: width as i32,
        height: height as i32,
        advance: (0, 0),
        buffer,
    }
}

/// The glyph that a bitmap context of `width` by `height` pixels holds
/// after a character was drawn into it, on a big-endian host.
///
/// `rasterized_pixels` are the context's bytes: alpha, red, green, blue. A
/// colored glyph takes them as they are; every other glyph is an alpha mask
/// of red, green and blue. Without width or height the glyph is the blank
/// one, whatever the character.
pub fn glyph_from_pixels_big_endian(
    character: char,
    left: i32,
    top: i32,
    width: u32,
    height: u32,
    is_colored: bool,
    rasterized_pixels: Vec<u8>,
) -> (glyph: RasterizedGlyph)
    requires
        width <= i32::MAX,
        height <= i32::MAX,
    ensures
        glyph@ == drawn_glyph(
            character,
            left,
            top,
            width,
            height,
            is_colored,
            if is_colored {
                rasterized_pixels@
            } else {
                byte_order::big_endian::rgb_of(rasterized_pixels@)
            },
        ),
{
    if width == 0 || height == 0 {
        return RasterizedGlyph::default();
    }
    let buffer = if is_colored {
        BitmapBuffer::Rgba(byte_order::big_endian::extract_rgba(rasterized_pixels))
    } else {
        BitmapBuffer::Rgb(byte_order::big_endian::extract_rgb(rasterized_pixels))
    };
    RasterizedGlyph {
        character,
        left,
        top,
        width: width as i32,
        height: height as i32,
        advance: (0, 0),
        buffer,
    }
}

} // verus!

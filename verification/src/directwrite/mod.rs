//! Decisions of a rasterizer that sits on DirectWrite.

use vstd::prelude::*;
use vstd::string::StringExecFns;

use crate::cache::{cached_after, loaded_key, KeyCache, Slot};
use crate::error::Error;
use crate::font::{FontDesc, FontKey, KeyAllocator};
use crate::glyph::{BitmapBuffer, GlyphView, RasterizedGlyph};
use crate::text::{upper_hex, upper_hex_text};

verus! {

/// Keeps the keys of the fonts that were loaded, one for each description:
/// a font serves every size.
#[derive(Debug)]
pub struct DirectWriteRasterizer {
    keys: KeyCache,
}

impl DirectWriteRasterizer {
    /// The keys of the loaded fonts.
    pub closed spec fn keys(&self) -> Map<Slot, FontKey> {
        self.keys@
    }

    /// The allocator that makes the key of the next new font.
    pub closed spec fn allocator(&self) -> KeyAllocator {
        self.keys.allocator()
    }

    /// A rasterizer without fonts.
    pub fn new() -> (rasterizer: DirectWriteRasterizer)
        ensures
            rasterizer.keys() == Map::<Slot, FontKey>::empty(),
            rasterizer.allocator().next_token() == 0,
    {
        DirectWriteRasterizer { keys: KeyCache::new() }
    }

    /// The key that the font was loaded under, if it was loaded.
    pub fn loaded_font(&self, desc: &FontDesc) -> (key: Option<FontKey>)
        ensures
            key == if self.keys().contains_key(Slot { desc: desc@, size: None }) {
                Some(self.keys()[Slot { desc: desc@, size: None }])
            } else {
                None
            },
    {
        self.keys.get(desc, None)
    }

    /// Load the font described by `desc`: returns the key that it was loaded
    /// under before, or else a new key if `found` says that the platform has
    /// such a font. Fails with `FontNotFound` where the font is new and was
    /// not found.
    pub fn load_font(&mut self, desc: &FontDesc, found: bool) -> (loaded: Result<FontKey, Error>)
        ensures
            match loaded_key(
                old(self).keys(),
                old(self).allocator().next_token(),
                Slot { desc: desc@, size: None },
                found,
            ) {
                Some(key) => loaded == Ok::<FontKey, Error>(key),
                None => loaded matches Err(Error::FontNotFound(missing)) && missing@ == desc@,
            },
            final(self).keys() == cached_after(
                old(self).keys(),
                old(self).allocator().next_token(),
                Slot { desc: desc@, size: None },
                found,
            ),
            final(self).allocator() == if !old(self).keys().contains_key(
                Slot { desc: desc@, size: None },
            ) && found {
                old(self).allocator().after(1)
            } else {
                old(self).allocator()
            },
    {
        self.keys.load(desc, None, found)
    }

    /// The glyph that an alpha texture with the given bounds holds: as wide
    /// and high as the bounds, its top as far above the baseline as the
    /// bounds reach up.
    pub fn rasterize_glyph(
        character: char,
        left: i32,
        top: i32,
        right: i32,
        bottom: i32,
        texture: Vec<u8>,
    ) -> (glyph: RasterizedGlyph)
        requires
            i32::MIN <= right - left <= i32::MAX,
            i32::MIN <= bottom - top <= i32::MAX,
            top != i32::MIN,
        ensures
            glyph@ == (GlyphView {
                character,
                width: right - left,
                height: bottom - top,
                top: -top,
                left: left as int,
                advance: (0, 0),
                colored: false,
                bytes: texture@,
            }),
    {
        RasterizedGlyph {
            character,
            width: right - left,
            height: bottom - top,
            top: -top,
            left,
            advance: (0, 0),
            buffer: BitmapBuffer::Rgb(texture),
        }
    }
}

/// The number that an `HRESULT` shows as when its bits are read without a
/// sign.
pub open spec fn unsigned_bits(hresult: i32) -> nat {
    if hresult < 0 {
        (hresult + 0x1_0000_0000) as nat
    } else {
        hresult as nat
    }
}

/// The error that a failed DirectWrite call becomes: a platform error whose
/// message ends in the bits of the `HRESULT` to base sixteen.
pub fn platform_error(hresult: i32) -> (error: Error)
    ensures
        error matches Error::PlatformError(message) && message@
            == "a DirectWrite rendering error occurred: "@ + upper_hex_text(unsigned_bits(hresult)),
{
    let bits: u32 = if hresult < 0 {
        (hresult as i64 + 0x1_0000_0000) as u32
    } else {
        hresult as u32
    };
    let mut message = String::from_str("a DirectWrite rendering error occurred: ");
    let digits = upper_hex(bits);
    message.append(digits.as_str());
    Error::PlatformError(message)
}

} // verus!

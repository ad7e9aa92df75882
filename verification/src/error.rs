//! Errors of the rasterizer.

use vstd::prelude::*;
use vstd::string::StringExecFns;

use crate::font::FontDesc;
use crate::glyph::RasterizedGlyph;
use crate::text::{debug_char, debug_char_text, enclose};

verus! {

/// Errors occurring when using the rasterizer.
#[derive(Debug)]
pub enum Error {
    /// Unable to find a font matching the description.
    FontNotFound(FontDesc),
    /// Unable to find metrics for a font face.
    MetricsNotFound,
    /// The glyph could not be found in any font. Holds what was rasterized
    /// in its place.
    MissingGlyph(RasterizedGlyph),
    /// Requested an operation with a FontKey that isn't known to the
    /// rasterizer.
    UnknownFontKey,
    /// Error from the platform's font system.
    PlatformError(String),
}

impl Error {
    /// The message of the error. A font and a character stand in it in
    /// their `Debug` form; a platform error is its own message.
    pub open spec fn text(self) -> Seq<char> {
        match self {
            Error::FontNotFound(font) => "font "@ + font@.debug_text() + " not found"@,
            Error::MissingGlyph(glyph) => "glyph for character "@ + debug_char_text(glyph.character)
                + " not found"@,
            Error::UnknownFontKey => "invalid font key"@,
            Error::MetricsNotFound => "metrics not found"@,
            Error::PlatformError(message) => message@,
        }
    }

    /// The error that a failure of the platform's font system becomes: a
    /// platform error with the failure's own text as its message.
    pub fn platform<E: core::fmt::Display + ?Sized>(failure: &E) -> (error: Error)
        ensures
            error matches Error::PlatformError(message)
                && vstd::string::to_string_from_display_ensures::<E>(failure, message),
    {
        Error::PlatformError(failure.to_string())
    }

    /// The message of the error.
    pub fn to_string(&self) -> (text: String)
        ensures
            text@ == self.text(),
    {
        match self {
            Error::FontNotFound(font) => {
                let font = font.debug_string();
                enclose("font ", font.as_str(), " not found")
            },
            Error::MissingGlyph(glyph) => {
                let character = debug_char(glyph.character);
                enclose("glyph for character ", character.as_str(), " not found")
            },
            Error::UnknownFontKey => String::from_str("invalid font key"),
            Error::MetricsNotFound => String::from_str("metrics not found"),
            Error::PlatformError(err) => err.clone(),
        }
    }
}

} // verus!

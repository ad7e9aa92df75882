//! Font fallback resolution and glyph bitmap normalization.
//!
//! The crate holds the decisions of a glyph rasterizer: which font key a
//! request maps to, which face of a fallback chain serves a character, and
//! how a native bitmap becomes a canonical pixel buffer. Talking to the
//! native font libraries is left to the caller.

pub mod cache;
pub mod darwin;
pub mod directwrite;
pub mod error;
pub mod font;
pub mod ft;
pub mod glyph;
pub mod metrics;
pub mod text;

pub use error::Error;
pub use font::{FontDesc, FontKey, GlyphKey, KeyAllocator, Size, Slant, Style, Weight};
pub use glyph::{BitmapBuffer, RasterizedGlyph};
pub use metrics::Metrics;

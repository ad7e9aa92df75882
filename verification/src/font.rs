//! Font descriptions, font keys and sizes.

use vstd::prelude::*;
use vstd::string::StringExecFns;

use crate::text::{debug_str, debug_str_text, enclose};

verus! {

/// Slant of a described font.
#[derive(Debug, Clone, Copy, PartialEq, Eq, Hash, Structural)]
pub enum Slant {
    Normal,
    Italic,
    Oblique,
}

/// Weight of a described font.
#[derive(Debug, Clone, Copy, PartialEq, Eq, Hash, Structural)]
pub enum Weight {
    Normal,
    Bold,
}

/// Style of font.
#[derive(Debug, Clone, Eq, Hash)]
pub enum Style {
    Specific(String),
    Description { slant: Slant, weight: Weight },
}

/// What a [`Style`] stands for in contracts.
pub enum StyleView {
    Specific(Seq<char>),
    Description { slant: Slant, weight: Weight },
}

impl View for Style {
    type V = StyleView;

    open spec fn view(&self) -> StyleView {
        match *self {
            Style::Specific(name) => StyleView::Specific(name@),
            Style::Description { slant, weight } => StyleView::Description { slant, weight },
        }
    }
}

impl PartialEq for Style {
    fn eq(&self, other: &Style) -> (equal: bool) {
        match (self, other) {
            (Style::Specific(a), Style::Specific(b)) => *a == *b,
            (
                Style::Description { slant: s1, weight: w1 },
                Style::Description { slant: s2, weight: w2 },
            ) => *s1 == *s2 && *w1 == *w2,
            _ => false,
        }
    }
}

impl vstd::std_specs::cmp::PartialEqSpecImpl for Style {
    open spec fn obeys_eq_spec() -> bool {
        true
    }

    open spec fn eq_spec(&self, other: &Style) -> bool {
        self@ == other@
    }
}

impl Slant {
    /// The name of the slant.
    pub open spec fn name_text(self) -> Seq<char> {
        match self {
            Slant::Normal => "Normal"@,
            Slant::Italic => "Italic"@,
            Slant::Oblique => "Oblique"@,
        }
    }

    /// The name of the slant.
    pub fn name(self) -> (text: &'static str)
        ensures
            text@ == self.name_text(),
    {
        match self {
            Slant::Normal => "Normal",
            Slant::Italic => "Italic",
            Slant::Oblique => "Oblique",
        }
    }
}

impl Weight {
    /// The name of the weight.
    pub open spec fn name_text(self) -> Seq<char> {
        match self {
            Weight::Normal => "Normal"@,
            Weight::Bold => "Bold"@,
        }
    }

    /// The name of the weight.
    pub fn name(self) -> (text: &'static str)
        ensures
            text@ == self.name_text(),
    {
        match self {
            Weight::Normal => "Normal",
            Weight::Bold => "Bold",
        }
    }
}

impl StyleView {
    /// The text that names a style: the style name itself, or the slant and
    /// weight spelled out as `slant=.., weight=..`.
    pub open spec fn text(self) -> Seq<char> {
        match self {
            StyleView::Specific(name) => name,
            StyleView::Description { slant, weight } => "slant="@ + slant.name_text()
                + ", weight="@ + weight.name_text(),
        }
    }

    /// The `Debug` form of a style.
    pub open spec fn debug_text(self) -> Seq<char> {
        match self {
            StyleView::Specific(name) => "Specific("@ + debug_str_text(name) + ")"@,
            StyleView::Description { slant, weight } => "Description { slant: "@ + slant.name_text()
                + ", weight: "@ + weight.name_text() + " }"@,
        }
    }
}

impl Style {
    /// The `Debug` form of the style.
    pub fn debug_string(&self) -> (text: String)
        ensures
            text@ == self@.debug_text(),
    {
        match self {
            Style::Specific(name) => {
                let quoted = debug_str(name.as_str());
                enclose("Specific(", quoted.as_str(), ")")
            },
            Style::Description { slant, weight } => {
                let mut text = String::from_str("Description { slant: ");
                text.append(slant.name());
                text.append(", weight: ");
                text.append(weight.name());
                text.append(" }");
                text
            },
        }
    }

    /// The text that names this style.
    pub fn to_string(&self) -> (text: String)
        ensures
            text@ == self@.text(),
    {
        match self {
            Style::Specific(name) => name.clone(),
            Style::Description { slant, weight } => {
                let mut text = String::from_str("slant=");
                text.append(slant.name());
                text.append(", weight=");
                text.append(weight.name());
                text
            },
        }
    }
}

/// A font family together with the style asked of it.
#[derive(Debug, Clone, Eq, Hash)]
pub struct FontDesc {
    name: String,
    style: Style,
}

/// What a [`FontDesc`] stands for in contracts.
pub struct FontDescView {
    pub name: Seq<char>,
    pub style: StyleView,
}

impl View for FontDesc {
    type V = FontDescView;

    closed spec fn view(&self) -> FontDescView {
        FontDescView { name: self.name@, style: self.style@ }
    }
}

impl PartialEq for FontDesc {
    fn eq(&self, other: &FontDesc) -> (equal: bool) {
        self.name == other.name && self.style == other.style
    }
}

impl vstd::std_specs::cmp::PartialEqSpecImpl for FontDesc {
    open spec fn obeys_eq_spec() -> bool {
        true
    }

    open spec fn eq_spec(&self, other: &FontDesc) -> bool {
        self@ == other@
    }
}

impl FontDescView {
    /// The text that names a description: family, ` - `, style.
    pub open spec fn text(self) -> Seq<char> {
        self.name + " - "@ + self.style.text()
    }

    /// The `Debug` form of a description.
    pub open spec fn debug_text(self) -> Seq<char> {
        "FontDesc { name: "@ + debug_str_text(self.name) + ", style: "@ + self.style.debug_text()
            + " }"@
    }
}

/// Whether `names[position]` is the first name equal to `style`.
pub open spec fn is_first_named(names: Seq<String>, style: Seq<char>, position: int) -> bool {
    &&& 0 <= position < names.len()
    &&& names[position]@ == style
    &&& forall|i: int| 0 <= i < position ==> (#[trigger] names[i])@ != style
}

impl FontDesc {
    pub fn new(name: &str, style: Style) -> (desc: FontDesc)
        ensures
            desc@ == (FontDescView { name: name@, style: style@ }),
    {
        FontDesc { name: name.to_owned(), style }
    }

    /// The family name.
    pub fn name(&self) -> (name: &String)
        ensures
            name@ == self@.name,
    {
        &self.name
    }

    /// The style asked of the family.
    pub fn style(&self) -> (style: &Style)
        ensures
            style@ == self@.style,
    {
        &self.style
    }

    /// The text that names this description.
    pub fn to_string(&self) -> (text: String)
        ensures
            text@ == self@.text(),
    {
        let mut text = self.name.clone();
        text.append(" - ");
        let style = self.style.to_string();
        text.append(style.as_str());
        text
    }

    /// The `Debug` form of the description.
    pub fn debug_string(&self) -> (text: String)
        ensures
            text@ == self@.debug_text(),
    {
        let quoted = debug_str(self.name.as_str());
        let mut text = enclose("FontDesc { name: ", quoted.as_str(), ", style: ");
        let style = self.style.debug_string();
        text.append(style.as_str());
        text.append(" }");
        text
    }

    /// Picks the font of the family by the name of its style, which has to
    /// match exactly: the position of the first of `style_names` that is
    /// `style`, if there is one.
    pub fn position_of_style(style: &String, style_names: &Vec<String>) -> (found: Option<usize>)
        ensures
            match found {
                Some(position) => is_first_named(style_names@, style@, position as int),
                None => forall|i: int|
                    0 <= i < style_names@.len() ==> (#[trigger] style_names@[i])@ != style@,
            },
    {
        let mut position: usize = 0;
        while position < style_names.len()
            invariant
                position <= style_names@.len(),
                forall|i: int| 0 <= i < position ==> (#[trigger] style_names@[i])@ != style@,
            decreases style_names@.len() - position,
        {
            if style_names[position] == *style {
                return Some(position);
            }
            position += 1;
        }
        None
    }

    /// A copy that stands for the same description.
    pub fn duplicate(&self) -> (copy: FontDesc)
        ensures
            copy@ == self@,
    {
        let style = match &self.style {
            Style::Specific(name) => Style::Specific(name.clone()),
            Style::Description { slant, weight } => Style::Description {
                slant: *slant,
                weight: *weight,
            },
        };
        FontDesc { name: self.name.clone(), style }
    }
}

/// Identifier for a font, for use in maps.
#[derive(Debug, Clone, Copy, Hash, PartialEq, Eq, Structural)]
pub struct FontKey {
    token: u32,
}

/// Hands out font keys, counting up from zero.
#[derive(Debug, Clone, Copy, PartialEq, Eq, Structural)]
pub struct KeyAllocator {
    next: u32,
}

impl KeyAllocator {
    /// An allocator that has not handed out any key.
    pub fn new() -> (allocator: KeyAllocator)
        ensures
            allocator.next_token() == 0,
    {
        KeyAllocator { next: 0 }
    }

    /// The token of the key that the next allocation returns.
    pub closed spec fn next_token(self) -> u32 {
        self.next
    }

    /// The allocator after `count` further allocations.
    pub closed spec fn after(self, count: nat) -> KeyAllocator {
        KeyAllocator { next: ((self.next + count) % 0x1_0000_0000) as u32 }
    }

    /// The token that the allocator hands out after `count` earlier
    /// allocations.
    pub open spec fn nth_token(self, count: nat) -> u32 {
        self.after(count).next_token()
    }

    /// While the counter does not wrap, a later key is greater than an
    /// earlier one: keys strictly increase and none repeats.
    pub proof fn lemma_keys_strictly_increase(self, earlier: nat, later: nat)
        requires
            earlier < later,
            self.next_token() + later <= u32::MAX,
        ensures
            self.nth_token(earlier) < self.nth_token(later),
    {
    }

    /// Allocating `count` keys and then one more is allocating `count + 1`.
    pub proof fn lemma_after_step(self, count: nat)
        ensures
            self.after(0) == self,
            self.after(count).after(1) == self.after(count + 1),
    {
    }
}

impl FontKey {
    /// The number that identifies the font.
    pub closed spec fn token(self) -> u32 {
        self.token
    }

    /// The key with the given token.
    pub closed spec fn with_token(token: u32) -> FontKey {
        FontKey { token }
    }

    /// A key is its token.
    pub proof fn lemma_token_names_key(self)
        ensures
            FontKey::with_token(self.token()) == self,
            forall|token: u32| #[trigger] FontKey::with_token(token).token() == token,
    {
    }

    /// Get the next font key of `allocator`.
    ///
    /// The key is the allocator's counter, which then moves on by one and
    /// wraps to zero after `u32::MAX`.
    pub fn next(allocator: &mut KeyAllocator) -> (key: FontKey)
        ensures
            key.token() == old(allocator).next_token(),
            *final(allocator) == old(allocator).after(1),
    {
        let token: u32 = allocator.next;
        allocator.next = token.wrapping_add(1);
        FontKey { token }
    }

    /// The number that identifies the font.
    pub fn raw(self) -> (token: u32)
        ensures
            token == self.token(),
    {
        self.token
    }

    /// The key with the given token.
    pub fn from_raw(token: u32) -> (key: FontKey)
        ensures
            key.token() == token,
            key == FontKey::with_token(token),
    {
        FontKey { token }
    }
}

/// Number of size units in one point.
pub const SIZE_UNITS_PER_POINT: u32 = 1_000_000;

/// Smallest font size, in size units: one point.
pub const MIN_FONT_SIZE: u32 = 1_000_000;

/// Largest font size, in size units: 3999 points, so that a size fits `u32`.
pub const MAX_FONT_SIZE: u32 = 3_999_000_000;

/// Font size in millionths of a point.
#[derive(Debug, Copy, Clone, Hash, PartialEq, Eq, PartialOrd, Ord, Structural)]
pub struct Size(u32);

impl Size {
    /// The size in millionths of a point.
    pub closed spec fn units(self) -> u32 {
        self.0
    }

    /// `units` brought into the supported range of 1 to 3999 points.
    pub open spec fn clamped(units: int) -> int {
        if units < MIN_FONT_SIZE {
            MIN_FONT_SIZE as int
        } else if units > MAX_FONT_SIZE {
            MAX_FONT_SIZE as int
        } else {
            units
        }
    }

    /// Create a new `Size` from millionths of a point.
    ///
    /// The font size is clamped to the supported range of 1 to 3999 points.
    pub fn new(size: u32) -> (result: Size)
        ensures
            result.units() == Size::clamped(size as int),
    {
        if size < MIN_FONT_SIZE {
            Size(MIN_FONT_SIZE)
        } else if size > MAX_FONT_SIZE {
            Size(MAX_FONT_SIZE)
        } else {
            Size(size)
        }
    }

    /// Create a new `Size` from millionths of a pixel, at 96 pixels to 72
    /// points. The result is clamped as in [`Size::new`].
    pub fn from_px(size: u32) -> (result: Size)
        ensures
            result.units() == Size::clamped(size as int * 72 / 96),
    {
        let pt: u64 = size as u64 * 72 / 96;
        Size::new(pt as u32)
    }

    /// Scale the font size by `numerator / denominator`, rounding toward
    /// zero and clamping as in [`Size::new`].
    pub fn scale(self, numerator: u32, denominator: u32) -> (result: Size)
        requires
            denominator > 0,
        ensures
            result.units() == Size::clamped(self.units() as int * numerator as int / denominator as int),
    {
        assert(self.0 as u64 * numerator as u64 <= 0xffff_ffff * 0xffff_ffff) by (nonlinear_arith)
            requires
                self.0 <= 0xffff_ffff,
                numerator <= 0xffff_ffff,
        ;
        let product: u64 = self.0 as u64 * numerator as u64;
        let scaled: u64 = product / denominator as u64;
        if scaled > MAX_FONT_SIZE as u64 {
            Size(MAX_FONT_SIZE)
        } else {
            Size::new(scaled as u32)
        }
    }

    /// Get the size in millionths of a pixel.
    pub fn as_px(self) -> (px: u64)
        ensures
            px == self.units() as int * 96 / 72,
    {
        self.0 as u64 * 96 / 72
    }

    /// Get the size in millionths of a point.
    pub fn as_pt(self) -> (pt: u32)
        ensures
            pt == self.units(),
    {
        self.0
    }
}

/// Picks the font that renders a character from a font and the fonts to
/// fall back to: the position of the first of `fonts` fonts for which
/// `glyph_index` gives a glyph index that is not zero, with that index.
/// `None` where every font lacks the glyph. The fonts are asked in their
/// order, and none behind the one that is picked.
pub fn first_with_glyph<F: Fn(usize) -> u32>(fonts: usize, glyph_index: &F) -> (found: Option<
    (usize, u32),
>)
    requires
        forall|position: usize| call_requires(*glyph_index, (position,)),
    ensures
        match found {
            Some((position, index)) => {
                &&& position < fonts
                &&& index != 0
                &&& call_ensures(*glyph_index, (position,), index)
                &&& forall|earlier: usize|
                    earlier < position ==> call_ensures(*glyph_index, (earlier,), 0u32)
            },
            None => forall|position: usize|
                position < fonts ==> call_ensures(*glyph_index, (position,), 0u32),
        },
{
    let mut position: usize = 0;
    while position < fonts
        invariant
            position <= fonts,
            forall|position: usize| call_requires(*glyph_index, (position,)),
            forall|earlier: usize|
                earlier < position ==> call_ensures(*glyph_index, (earlier,), 0u32),
        decreases fonts - position,
    {
        let index: u32 = glyph_index(position);
        if index != 0 {
            return Some((position, index));
        }
        position += 1;
    }
    None
}

/// One rasterization request: a character of a font at a size.
#[derive(Debug, Copy, Clone, Eq, PartialEq, Hash, Structural)]
pub struct GlyphKey {
    pub character: char,
    pub font_key: FontKey,
    pub size: Size,
}

} // verus!

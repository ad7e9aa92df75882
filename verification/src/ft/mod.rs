//! Decisions of a rasterizer that sits on FreeType and Fontconfig.
//!
//! The rasterizer here keeps the books: which faces are loaded, which
//! fallback fonts belong to a primary font, and what step comes next when a
//! character is looked up. Matching fonts, loading faces and rendering
//! glyphs is the caller's part.

use std::collections::HashMap;
use vstd::prelude::*;

pub mod bitmap;
pub mod downsample;
pub mod face;
pub mod fallback;
pub mod fc;
pub mod metrics;

use crate::error::Error;
use crate::font::{FontDesc, FontKey, GlyphKey, Size};
use crate::glyph::{GlyphView, RasterizedGlyph};
use crate::metrics::Metrics;
use bitmap::{NativeBitmap, PixelMode};
use downsample::{downsample_bitmap, FixupFactor};
use face::FaceLoadingProperties;
use metrics::NativeMetrics;
use fallback::{
    candidates_of, combined_coverage, lemma_scan_moves_on, lemma_scan_stops_at_first_of_use, scan,
    Candidate, FallbackFont, FallbackList, Step,
};
use fc::{CharSet, PatternHash};

verus! {

broadcast use vstd::std_specs::hash::group_hash_axioms;

/// The token of the key that two pattern hashes give: the first hash
/// rotated left by one bit, XOR the second.
pub open spec fn token_of_hashes(lhs: u32, rhs: u32) -> u32 {
    ((lhs << 1u32) | (lhs >> 31u32)) ^ rhs
}

impl FontKey {
    /// The key of the font that the pattern with hash `rhs` names in answer
    /// to the request with hash `lhs`.
    pub fn from_pattern_hashes(lhs: PatternHash, rhs: PatternHash) -> (key: FontKey)
        ensures
            key.token() == token_of_hashes(lhs.0, rhs.0),
            key == FontKey::with_token(token_of_hashes(lhs.0, rhs.0)),
    {
        // XOR two hashes to get a font ID.
        FontKey::from_raw(((lhs.0 << 1u32) | (lhs.0 >> 31u32)) ^ rhs.0)
    }
}

/// One font of the list that matching a request gave: the hash of its
/// pattern and the characters that the pattern declares, if any.
#[derive(Debug)]
pub struct FontMatch {
    pub hash: PatternHash,
    pub charset: Option<CharSet>,
}

impl FontMatch {
    /// The candidate that the match becomes in the fallback list of the
    /// request with hash `request`.
    pub open spec fn candidate(self, request: PatternHash) -> Candidate {
        Candidate {
            key: FontKey::with_token(token_of_hashes(request.0, self.hash.0)),
            coverage: match self.charset {
                Some(charset) => charset@,
                None => Set::empty(),
            },
        }
    }
}

/// The fallback candidates that the matches after the first become.
pub open spec fn fallbacks_of(request: PatternHash, matches: Seq<FontMatch>) -> Seq<Candidate> {
    Seq::new((matches.len() - 1) as nat, |i: int| matches[i + 1].candidate(request))
}

/// What came of loading the face of a fallback font.
#[derive(Debug, Copy, Clone)]
pub enum LoadOutcome {
    /// The face is loaded, with these properties.
    Loaded(FaceLoadingProperties),
    /// The font's pattern names no file to load a face from.
    NoFace,
    /// The platform failed to load the face.
    Failed,
}

/// A glyph as the native rasterizer rendered it.
#[derive(Debug)]
pub struct RenderedGlyph {
    /// Index of the glyph in its face; zero for the missing glyph.
    pub glyph_index: u32,
    pub bitmap: NativeBitmap,
    /// Rows from the baseline up to the top of the bitmap.
    pub top: i32,
    /// Columns from the origin to the left of the bitmap.
    pub left: i32,
    /// Advance in whole pixels.
    pub advance: (i32, i32),
    /// The pixel size that was asked for, in 26.6 fixed point.
    pub pixelsize: u32,
    /// Pixels per em of the size that the face rendered at, where the face
    /// has size metrics.
    pub y_ppem: Option<u16>,
}

impl RenderedGlyph {
    /// The glyph before any scaling: the bitmap's pixels in canonical form,
    /// placed and advanced as the rasterizer said.
    pub open spec fn plain(&self, character: char, rgba: fc::Rgba) -> GlyphView {
        GlyphView {
            character,
            width: self.bitmap.pixel_columns(),
            height: self.bitmap.pixel_rows(),
            top: self.top as int,
            left: self.left as int,
            advance: (self.advance.0 as int, self.advance.1 as int),
            colored: self.bitmap.spec_pixel_mode() == PixelMode::Bgra,
            bytes: self.bitmap.normalized(rgba),
        }
    }

    /// The factor that a colored glyph of `face` is scaled by: the one of the
    /// face's pattern, or else the requested pixel size over the pixels per
    /// em that the face rendered at. `None` where neither is to be had.
    pub open spec fn fixup_factor(&self, face: FaceLoadingProperties) -> Option<FixupFactor> {
        match face.pixelsize_fixup_factor {
            Some(factor) => Some(factor),
            None => match self.y_ppem {
                Some(ppem) if ppem > 0 => Some(FixupFactor::of(self.pixelsize, (64 * ppem) as u32)),
                _ => None,
            },
        }
    }

    /// The glyph of a colored bitmap face after scaling by `factor`: the
    /// advance rounded to whole pixels, the pixels downsampled.
    pub open spec fn scaled(
        &self,
        character: char,
        rgba: fc::Rgba,
        factor: FixupFactor,
    ) -> GlyphView {
        let plain = self.plain(character, rgba);
        factor.scaled_glyph(
            GlyphView {
                advance: (
                    factor.scaled_advance(plain.advance.0),
                    factor.scaled_advance(plain.advance.1),
                ),
                ..plain
            },
        )
    }
}

/// The least time between two reloads of the font configuration, and
/// between creating the rasterizer and the first reload, in nanoseconds: two
/// seconds.
pub const RELOAD_DELAY: u128 = 2_000_000_000;

/// Keeps track of loaded faces and of the fallback fonts of each primary
/// font. The face of every primary font is loaded.
pub struct FreeTypeRasterizer {
    faces: HashMap<u32, FaceLoadingProperties>,
    fallback_lists: HashMap<u32, FallbackList>,
    /// When the font configuration was last reloaded, in nanoseconds since
    /// the rasterizer was created.
    last_reload: Option<u128>,
}

impl FreeTypeRasterizer {
    #[verifier::type_invariant]
    spec fn inv(&self) -> bool {
        forall|token: u32| #[trigger]
            self.fallback_lists@.contains_key(token) ==> self.faces@.contains_key(token)
    }

    /// The loaded faces, by the token of their key.
    pub closed spec fn faces(&self) -> Map<u32, FaceLoadingProperties> {
        self.faces@
    }

    /// The fallback candidates of each primary font, by the token of its
    /// key.
    pub closed spec fn fallback_lists(&self) -> Map<u32, Seq<Candidate>> {
        Map::new(
            |token: u32| self.fallback_lists@.contains_key(token),
            |token: u32| self.fallback_lists@[token]@,
        )
    }

    /// When the font configuration was last reloaded, in nanoseconds since
    /// the rasterizer was created; `None` before the first reload.
    pub closed spec fn last_reload(&self) -> Option<u128> {
        self.last_reload
    }

    /// Whether the face that a step names is loaded: the face to probe, or
    /// the face to rasterize with.
    pub open spec fn is_ready(&self, step: Step) -> bool {
        match step {
            Step::Probe { key, .. } => self.faces().contains_key(key.token()),
            Step::Load { .. } => true,
            Step::Done { key } => self.faces().contains_key(key.token()),
        }
    }

    /// A rasterizer that has loaded nothing and never had the font
    /// configuration reloaded.
    pub fn new() -> (rasterizer: FreeTypeRasterizer)
        ensures
            rasterizer.faces() == Map::<u32, FaceLoadingProperties>::empty(),
            rasterizer.fallback_lists() == Map::<u32, Seq<Candidate>>::empty(),
            rasterizer.last_reload() is None,
    {
        let rasterizer = FreeTypeRasterizer {
            faces: HashMap::new(),
            fallback_lists: HashMap::new(),
            last_reload: None,
        };
        assert(rasterizer.fallback_lists() =~= Map::<u32, Seq<Candidate>>::empty());
        rasterizer
    }

    /// The properties of the face loaded under `key`, if one is.
    pub fn face(&self, key: FontKey) -> (face: Option<&FaceLoadingProperties>)
        ensures
            face is Some <==> self.faces().contains_key(key.token()),
            face matches Some(found) ==> *found == self.faces()[key.token()],
    {
        self.faces.get(&key.raw())
    }

    /// Whether `key` is the key of a primary font, as `load_font` returns
    /// it. The face of a primary font is loaded, and its fallback fonts can
    /// be counted.
    pub fn is_primary(&self, key: FontKey) -> (known: bool)
        ensures
            known == self.fallback_lists().contains_key(key.token()),
            known ==> self.faces().contains_key(key.token()),
            known ==> self.fallback_lists()[key.token()].len() <= usize::MAX,
    {
        proof {
            use_type_invariant(self);
            self.lemma_lists_fit();
        }
        self.fallback_lists.contains_key(&key.raw())
    }

    /// No primary font has more fallback fonts than can be counted.
    pub proof fn lemma_lists_fit(&self)
        ensures
            forall|token: u32| #[trigger]
                self.fallback_lists().contains_key(token) ==> self.fallback_lists()[token].len()
                    <= usize::MAX,
    {
        assert forall|token: u32| #[trigger]
            self.fallback_lists().contains_key(token) implies self.fallback_lists()[token].len()
            <= usize::MAX by {
            self.fallback_lists@[token].lemma_len_fits();
        }
    }

    /// The step after the glyph index of a face is known.
    ///
    /// A face that has the glyph is the one to use. Where the primary face
    /// lacks it, the fallback fonts are walked only if one of them declares
    /// the character; where a fallback face lacks it, the walk goes on
    /// behind that font. An answer for a fallback font that is not in the
    /// list, or whose face is not loaded, is out of place and ends the
    /// search with the primary face.
    pub open spec fn step_after_probe(
        &self,
        glyph_key: GlyphKey,
        position: Option<usize>,
        glyph_index: u32,
    ) -> Step {
        let primary = glyph_key.font_key;
        if !self.fallback_lists().contains_key(primary.token()) {
            Step::Done { key: primary }
        } else {
            let candidates = self.fallback_lists()[primary.token()];
            let loaded = self.faces().dom();
            match position {
                None => if glyph_index != 0 || !combined_coverage(candidates).contains(
                    glyph_key.character,
                ) {
                    Step::Done { key: primary }
                } else {
                    scan(loaded, candidates, glyph_key.character, 0, primary)
                },
                Some(position) => if position >= candidates.len() || !loaded.contains(
                    candidates[position as int].key.token(),
                ) {
                    Step::Done { key: primary }
                } else if glyph_index != 0 {
                    Step::Done { key: candidates[position as int].key }
                } else {
                    scan(loaded, candidates, glyph_key.character, position + 1, primary)
                },
            }
        }
    }

    /// The step after the face of the fallback font at `position` was to be
    /// loaded.
    ///
    /// A loaded face is asked for the glyph. Without a face to load the walk
    /// goes on behind the font; after a failure it ends with the primary
    /// face.
    pub open spec fn step_after_load(
        &self,
        glyph_key: GlyphKey,
        position: usize,
        outcome: LoadOutcome,
    ) -> Step {
        let primary = glyph_key.font_key;
        if !self.fallback_lists().contains_key(primary.token()) {
            Step::Done { key: primary }
        } else {
            let candidates = self.fallback_lists()[primary.token()];
            if position >= candidates.len() {
                Step::Done { key: primary }
            } else {
                match outcome {
                    LoadOutcome::Loaded(_) => Step::Probe {
                        key: candidates[position as int].key,
                        position: Some(position),
                    },
                    LoadOutcome::NoFace => scan(
                        self.faces().dom(),
                        candidates,
                        glyph_key.character,
                        position + 1,
                        primary,
                    ),
                    LoadOutcome::Failed => Step::Done { key: primary },
                }
            }
        }
    }

    /// The loaded faces after the face of the fallback font at `position`
    /// was to be loaded: the new face is added under the font's key unless a
    /// face is loaded under that key already.
    pub open spec fn faces_after_load(
        &self,
        glyph_key: GlyphKey,
        position: usize,
        outcome: LoadOutcome,
    ) -> Map<u32, FaceLoadingProperties> {
        let primary = glyph_key.font_key;
        if self.fallback_lists().contains_key(primary.token()) && position
            < self.fallback_lists()[primary.token()].len() {
            let token = self.fallback_lists()[primary.token()][position as int].key.token();
            match outcome {
                LoadOutcome::Loaded(face) if !self.faces().contains_key(token) => self.faces().insert(
                    token,
                    face,
                ),
                _ => self.faces(),
            }
        } else {
            self.faces()
        }
    }

    /// Records a face under a token unless one is recorded there already.
    fn record_face(&mut self, token: u32, face: FaceLoadingProperties)
        ensures
            final(self).faces() == if old(self).faces().contains_key(token) {
                old(self).faces()
            } else {
                old(self).faces().insert(token, face)
            },
            final(self).fallback_lists() == old(self).fallback_lists(),
            final(self).last_reload() == old(self).last_reload(),
    {
        proof {
            use_type_invariant(&*self);
        }
        if self.faces.contains_key(&token) {
            return ;
        }
        // The lists are set aside while the faces are out of their place,
        // so that no list is ever without the face of its font.
        let mut lists: HashMap<u32, FallbackList> = HashMap::new();
        std::mem::swap(&mut lists, &mut self.fallback_lists);
        let mut faces: HashMap<u32, FaceLoadingProperties> = HashMap::new();
        std::mem::swap(&mut faces, &mut self.faces);
        faces.insert(token, face);
        self.faces = faces;
        self.fallback_lists = lists;
        assert(self.fallback_lists() =~= old(self).fallback_lists());
    }

    /// Records the fallback list of a primary font whose face is loaded.
    fn record_list(&mut self, token: u32, list: FallbackList)
        requires
            old(self).faces().contains_key(token),
        ensures
            final(self).faces() == old(self).faces(),
            final(self).fallback_lists() == old(self).fallback_lists().insert(token, list@),
            final(self).last_reload() == old(self).last_reload(),
    {
        proof {
            use_type_invariant(&*self);
        }
        let mut lists: HashMap<u32, FallbackList> = HashMap::new();
        std::mem::swap(&mut lists, &mut self.fallback_lists);
        lists.insert(token, list);
        self.fallback_lists = lists;
        assert(self.fallback_lists() =~= old(self).fallback_lists().insert(token, list@));
    }

    /// Each step that follows an answer names a face that is loaded, where
    /// the face of the primary font is loaded.
    proof fn lemma_steps_are_ready(
        &self,
        glyph_key: GlyphKey,
        position: Option<usize>,
        glyph_index: u32,
        outcome: LoadOutcome,
    )
        requires
            self.fallback_lists().contains_key(glyph_key.font_key.token()),
            self.faces().contains_key(glyph_key.font_key.token()),
        ensures
            self.is_ready(self.step_after_probe(glyph_key, position, glyph_index)),
            match position {
                Some(p) => outcome is Loaded || self.is_ready(
                    self.step_after_load(glyph_key, p, outcome),
                ),
                None => true,
            },
    {
        self.lemma_lists_fit();
        let candidates = self.fallback_lists()[glyph_key.font_key.token()];
        let from = match position {
            None => 0,
            Some(p) => p + 1,
        };
        lemma_scan_stops_at_first_of_use(
            self.faces().dom(),
            candidates,
            glyph_key.character,
            from,
            glyph_key.font_key,
        );
    }

    /// Walks the fallback fonts from `from` on. See [`scan`].
    fn scan_from(
        &self,
        fallbacks: &FallbackList,
        character: char,
        from: usize,
        primary: FontKey,
    ) -> (step: Step)
        ensures
            step == scan(self.faces().dom(), fallbacks@, character, from as int, primary),
    {
        let mut at: usize = from;
        while at < fallbacks.len()
            invariant
                from <= at,
                scan(self.faces().dom(), fallbacks@, character, from as int, primary) == scan(
                    self.faces().dom(),
                    fallbacks@,
                    character,
                    at as int,
                    primary,
                ),
            decreases fallbacks@.len() - at,
        {
            let font = fallbacks.get(at);
            let key = font.key();
            if self.faces.contains_key(&key.raw()) {
                return Step::Probe { key, position: Some(at) };
            }
            if font.has_char(character) {
                return Step::Load { key, position: at };
            }
            at += 1;
        }
        Step::Done { key: primary }
    }

    /// The first step of the search for the face that renders a character:
    /// the primary face is asked for the glyph.
    pub open spec fn first_step(&self, glyph_key: GlyphKey) -> Step {
        Step::Probe { key: glyph_key.font_key, position: None }
    }

    /// Starts the search for the face that renders a character. Fails with
    /// `UnknownFontKey` where the key is not that of a primary font.
    pub fn face_for_glyph(&self, glyph_key: GlyphKey) -> (first: Result<Step, Error>)
        ensures
            self.fallback_lists().contains_key(glyph_key.font_key.token()) ==> first == Ok::<
                Step,
                Error,
            >(self.first_step(glyph_key)),
            !self.fallback_lists().contains_key(glyph_key.font_key.token()) ==> first == Err::<
                Step,
                Error,
            >(Error::UnknownFontKey),
            first matches Ok(step) ==> self.is_ready(step),
    {
        if self.is_primary(glyph_key.font_key) {
            Ok(Step::Probe { key: glyph_key.font_key, position: None })
        } else {
            Err(Error::UnknownFontKey)
        }
    }

    /// Goes on with the search after a [`Step::Probe`]: `position` is the one
    /// of that step, and `glyph_index` what the face said, zero for a
    /// missing glyph.
    ///
    /// Each call uses up one of the glyph index checks that are left.
    pub fn after_probe(
        &self,
        glyph_key: GlyphKey,
        position: Option<usize>,
        glyph_index: u32,
    ) -> (next: Step)
        ensures
            next == self.step_after_probe(glyph_key, position, glyph_index),
            self.fallback_lists().contains_key(glyph_key.font_key.token()) ==> self.is_ready(next),
    {
        let primary = glyph_key.font_key;
        let fallbacks = match self.fallback_lists.get(&primary.raw()) {
            Some(fallbacks) => fallbacks,
            None => {
                return Step::Done { key: primary };
            },
        };
        proof {
            use_type_invariant(self);
            self.lemma_steps_are_ready(glyph_key, position, glyph_index, LoadOutcome::NoFace);
        }
        match position {
            None => {
                if glyph_index != 0 {
                    return Step::Done { key: primary };
                }
                // Check whether the glyph is present in any fallback font.
                if !fallbacks.covers(glyph_key.character) {
                    return Step::Done { key: primary };
                }
                self.scan_from(fallbacks, glyph_key.character, 0, primary)
            },
            Some(position) => {
                if position >= fallbacks.len() {
                    return Step::Done { key: primary };
                }
                let key = fallbacks.get(position).key();
                if !self.faces.contains_key(&key.raw()) {
                    return Step::Done { key: primary };
                }
                // We found something in the current face, so let's use it.
                if glyph_index != 0 {
                    return Step::Done { key };
                }
                self.scan_from(fallbacks, glyph_key.character, position + 1, primary)
            },
        }
    }

    /// Goes on with the search after a [`Step::Load`]: `position` is the one
    /// of that step, and `outcome` what came of loading the face.
    ///
    /// A face is recorded at most once under a key.
    pub fn after_load(
        &mut self,
        glyph_key: GlyphKey,
        position: usize,
        outcome: LoadOutcome,
    ) -> (next: Step)
        ensures
            next == old(self).step_after_load(glyph_key, position, outcome),
            final(self).faces() == old(self).faces_after_load(glyph_key, position, outcome),
            final(self).fallback_lists() == old(self).fallback_lists(),
            final(self).last_reload() == old(self).last_reload(),
            old(self).fallback_lists().contains_key(glyph_key.font_key.token())
                ==> final(self).is_ready(next),
    {
        proof {
            use_type_invariant(&*self);
            if self.fallback_lists().contains_key(glyph_key.font_key.token()) {
                self.lemma_steps_are_ready(glyph_key, Some(position), 0, outcome);
            }
        }
        let primary = glyph_key.font_key;
        let fallbacks = match self.fallback_lists.get(&primary.raw()) {
            Some(fallbacks) => fallbacks,
            None => {
                return Step::Done { key: primary };
            },
        };
        if position >= fallbacks.len() {
            return Step::Done { key: primary };
        }
        let key = fallbacks.get(position).key();
        match outcome {
            LoadOutcome::Loaded(face) => {
                self.record_face(key.raw(), face);
                Step::Probe { key, position: Some(position) }
            },
            LoadOutcome::NoFace => self.scan_from(
                fallbacks,
                glyph_key.character,
                position + 1,
                primary,
            ),
            LoadOutcome::Failed => Step::Done { key: primary },
        }
    }
}

impl FreeTypeRasterizer {
    /// The search for a face ends after at most one glyph index check for
    /// the primary face and one for each fallback font: at its first step
    /// no more than that are left.
    pub proof fn lemma_first_step_bound(&self, glyph_key: GlyphKey)
        requires
            self.fallback_lists().contains_key(glyph_key.font_key.token()),
        ensures
            0 <= self.first_step(glyph_key).checks_left(
                self.fallback_lists()[glyph_key.font_key.token()].len() as int,
            ) <= self.fallback_lists()[glyph_key.font_key.token()].len() + 1,
            0 <= self.first_step(glyph_key).steps_left(
                self.fallback_lists()[glyph_key.font_key.token()].len() as int,
            ) <= 2 * self.fallback_lists()[glyph_key.font_key.token()].len() + 1,
    {
        self.lemma_lists_fit();
        let candidates = self.fallback_lists()[glyph_key.font_key.token()];
        lemma_scan_moves_on(
            self.faces().dom(),
            candidates,
            glyph_key.character,
            0,
            glyph_key.font_key,
        );
    }

    /// Each answer to a probe uses up at least one of the glyph index checks
    /// that are left, whatever the answer is, so the search cannot go round
    /// in circles.
    pub proof fn lemma_probe_uses_a_check(
        &self,
        glyph_key: GlyphKey,
        key: FontKey,
        position: Option<usize>,
        glyph_index: u32,
    )
        requires
            self.fallback_lists().contains_key(glyph_key.font_key.token()),
            position matches Some(p) ==> p < self.fallback_lists()[glyph_key.font_key.token()].len(),
        ensures
            ({
                let candidates = self.fallback_lists()[glyph_key.font_key.token()].len() as int;
                let next = self.step_after_probe(glyph_key, position, glyph_index);
                let probe = Step::Probe { key, position };
                &&& 0 <= next.checks_left(candidates) < probe.checks_left(candidates)
                &&& 0 <= next.steps_left(candidates) < probe.steps_left(candidates)
            }),
    {
        self.lemma_lists_fit();
        let candidates = self.fallback_lists()[glyph_key.font_key.token()];
        let from = match position {
            None => 0,
            Some(p) => p + 1,
        };
        lemma_scan_moves_on(
            self.faces().dom(),
            candidates,
            glyph_key.character,
            from,
            glyph_key.font_key,
        );
    }

    /// Loading a face adds no glyph index check to those that are left, and
    /// the search gets one step shorter whatever came of the loading.
    pub proof fn lemma_load_adds_no_check(
        &self,
        glyph_key: GlyphKey,
        key: FontKey,
        position: usize,
        outcome: LoadOutcome,
    )
        requires
            self.fallback_lists().contains_key(glyph_key.font_key.token()),
            position < self.fallback_lists()[glyph_key.font_key.token()].len(),
        ensures
            ({
                let candidates = self.fallback_lists()[glyph_key.font_key.token()].len() as int;
                let next = self.step_after_load(glyph_key, position, outcome);
                let load = Step::Load { key, position };
                &&& 0 <= next.checks_left(candidates) <= load.checks_left(candidates)
                &&& 0 <= next.steps_left(candidates) < load.steps_left(candidates)
            }),
    {
        self.lemma_lists_fit();
        let candidates = self.fallback_lists()[glyph_key.font_key.token()];
        lemma_scan_moves_on(
            self.faces().dom(),
            candidates,
            glyph_key.character,
            position + 1,
            glyph_key.font_key,
        );
    }

    /// A fallback face is used only for a character that it has a glyph
    /// for: where the search ends after a probe, it ends with the primary
    /// face or with the face that was probed and has the glyph. After a
    /// load it can only end with the primary face.
    pub proof fn lemma_fallback_is_used_for_its_glyph(
        &self,
        glyph_key: GlyphKey,
        position: Option<usize>,
        glyph_index: u32,
        outcome: LoadOutcome,
    )
        requires
            self.fallback_lists().contains_key(glyph_key.font_key.token()),
        ensures
            match self.step_after_probe(glyph_key, position, glyph_index) {
                Step::Done { key } => key == glyph_key.font_key || match position {
                    Some(p) => {
                        &&& glyph_index != 0
                        &&& p < self.fallback_lists()[glyph_key.font_key.token()].len()
                        &&& key == self.fallback_lists()[glyph_key.font_key.token()][p as int].key
                    },
                    None => false,
                },
                _ => true,
            },
            match position {
                Some(p) => match self.step_after_load(glyph_key, p, outcome) {
                    Step::Done { key } => key == glyph_key.font_key,
                    _ => true,
                },
                None => true,
            },
    {
        self.lemma_lists_fit();
        let candidates = self.fallback_lists()[glyph_key.font_key.token()];
        let from = match position {
            None => 0,
            Some(p) => p + 1,
        };
        lemma_scan_stops_at_first_of_use(
            self.faces().dom(),
            candidates,
            glyph_key.character,
            from,
            glyph_key.font_key,
        );
    }

    /// A character that the primary face has a glyph for is rendered with
    /// the primary face: no fallback font is looked at.
    pub proof fn lemma_primary_glyph_ends_search(&self, glyph_key: GlyphKey, glyph_index: u32)
        requires
            glyph_index != 0,
        ensures
            self.step_after_probe(glyph_key, None, glyph_index) == (Step::Done {
                key: glyph_key.font_key,
            }),
    {
    }

    /// Whether loading a font finds one: the matching gave a font, and the
    /// face of the first is at hand, loaded before or now.
    pub open spec fn finds_font(
        &self,
        request: PatternHash,
        matches: Seq<FontMatch>,
        primary_face: Option<FaceLoadingProperties>,
    ) -> bool {
        &&& matches.len() > 0
        &&& {
            let token = token_of_hashes(request.0, matches[0].hash.0);
            ||| self.fallback_lists().contains_key(token)
            ||| self.faces().contains_key(token)
            ||| primary_face is Some
        }
    }

    /// The loaded faces after a font was loaded: the face of a primary font
    /// that is new is added, unless a face is loaded under its key already.
    pub open spec fn faces_after_load_font(
        &self,
        request: PatternHash,
        matches: Seq<FontMatch>,
        primary_face: Option<FaceLoadingProperties>,
    ) -> Map<u32, FaceLoadingProperties> {
        let token = token_of_hashes(request.0, matches[0].hash.0);
        if self.finds_font(request, matches, primary_face) && !self.fallback_lists().contains_key(
            token,
        ) && !self.faces().contains_key(token) {
            self.faces().insert(token, primary_face.unwrap())
        } else {
            self.faces()
        }
    }

    /// The fallback lists after a font was loaded: a primary font that is
    /// new gets the matches behind it as its fallback fonts.
    pub open spec fn lists_after_load_font(
        &self,
        request: PatternHash,
        matches: Seq<FontMatch>,
        primary_face: Option<FaceLoadingProperties>,
    ) -> Map<u32, Seq<Candidate>> {
        let token = token_of_hashes(request.0, matches[0].hash.0);
        if self.finds_font(request, matches, primary_face) && !self.fallback_lists().contains_key(
            token,
        ) {
            self.fallback_lists().insert(token, fallbacks_of(request, matches))
        } else {
            self.fallback_lists()
        }
    }

    /// Load the font described by `desc`.
    ///
    /// `request` is the hash of the pattern made from the description and
    /// `matches` the fonts that matching it gave: the first is the primary
    /// font while the rest are fallbacks. `primary_face` holds the
    /// properties of the primary font's face if it could be loaded; it is
    /// looked at only where no face is loaded under the font's key.
    ///
    /// Returns the key of the primary font, which the two hashes decide. A
    /// font that was loaded before changes nothing. Fails with
    /// `FontNotFound` where matching gave no font or the primary font has no
    /// face.
    pub fn load_font(
        &mut self,
        desc: &FontDesc,
        request: PatternHash,
        matches: &Vec<FontMatch>,
        primary_face: Option<FaceLoadingProperties>,
    ) -> (loaded: Result<FontKey, Error>)
        ensures
            old(self).finds_font(
                request,
                matches@,
                primary_face,
            ) ==> loaded == Ok::<FontKey, Error>(
                FontKey::with_token(token_of_hashes(request.0, matches@[0].hash.0)),
            ),
            !old(self).finds_font(request, matches@, primary_face) ==> (loaded matches Err(
                Error::FontNotFound(missing),
            ) && missing@ == desc@),
            final(self).faces() == old(self).faces_after_load_font(request, matches@, primary_face),
            final(self).fallback_lists() == old(self).lists_after_load_font(
                request,
                matches@,
                primary_face,
            ),
            loaded matches Ok(key) ==> final(self).fallback_lists().contains_key(key.token()),
            loaded matches Ok(key) ==> final(self).faces().contains_key(key.token()),
            final(self).last_reload() == old(self).last_reload(),
    {
        proof {
            use_type_invariant(&*self);
        }
        if matches.len() == 0 {
            return Err(Error::FontNotFound(desc.duplicate()));
        }
        // Hash the primary font together with the request, so that the
        // requested size is part of the key.
        let primary_font_key = FontKey::from_pattern_hashes(request, matches[0].hash);
        let token: u32 = primary_font_key.raw();

        // Return if we already have the same primary font.
        if self.fallback_lists.contains_key(&token) {
            return Ok(primary_font_key);
        }
        // Load font if we haven't loaded it yet.
        if !self.faces.contains_key(&token) {
            match primary_face {
                Some(face) => {
                    self.record_face(token, face);
                },
                None => {
                    return Err(Error::FontNotFound(desc.duplicate()));
                },
            }
        }
        let mut list: Vec<FallbackFont> = Vec::new();
        let mut at: usize = 1;
        while at < matches.len()
            invariant
                1 <= at <= matches@.len(),
                list@.len() == at - 1,
                forall|i: int|
                    0 <= i < list@.len() ==> (#[trigger] list@[i])@ == matches@[i + 1].candidate(
                        request,
                    ),
            decreases matches@.len() - at,
        {
            let charset: Option<CharSet> = match &matches[at].charset {
                Some(charset) => Some(charset.clone()),
                None => None,
            };
            // Use the request's hash to keep the requested size in the key.
            let fallback_font_key = FontKey::from_pattern_hashes(request, matches[at].hash);
            list.push(FallbackFont::new(charset, fallback_font_key));
            at += 1;
        }
        assert(candidates_of(list@) =~= fallbacks_of(request, matches@));
        self.record_list(token, FallbackList::new(list));
        Ok(primary_font_key)
    }

    /// Nothing that is loaded is ever dropped or replaced: loading a font
    /// keeps every face and every fallback list, and the font that it
    /// returns has its fallback list from then on.
    pub proof fn lemma_load_font_keeps_entries(
        &self,
        request: PatternHash,
        matches: Seq<FontMatch>,
        primary_face: Option<FaceLoadingProperties>,
    )
        ensures
            self.faces().submap_of(self.faces_after_load_font(request, matches, primary_face)),
            self.fallback_lists().submap_of(
                self.lists_after_load_font(request, matches, primary_face),
            ),
            self.finds_font(request, matches, primary_face) ==> self.lists_after_load_font(
                request,
                matches,
                primary_face,
            ).contains_key(token_of_hashes(request.0, matches[0].hash.0)),
    {
    }

    /// Nothing that is loaded is ever dropped or replaced: loading the face
    /// of a fallback font keeps every face, and the only face that it can
    /// add is that of the fallback font.
    pub proof fn lemma_load_keeps_faces(
        &self,
        glyph_key: GlyphKey,
        position: usize,
        outcome: LoadOutcome,
    )
        ensures
            self.faces().submap_of(self.faces_after_load(glyph_key, position, outcome)),
            forall|token: u32| #[trigger]
                self.faces_after_load(glyph_key, position, outcome).contains_key(token)
                    ==> self.faces().contains_key(token) || (self.fallback_lists().contains_key(
                    glyph_key.font_key.token(),
                ) && position < self.fallback_lists()[glyph_key.font_key.token()].len() && token
                    == self.fallback_lists()[glyph_key.font_key.token()][position as int].key.token()),
    {
    }

    /// Loading a font twice gives the same key, and the second time changes
    /// nothing: `again` is a rasterizer as `self` is after the first
    /// loading.
    pub proof fn lemma_load_font_is_idempotent(
        &self,
        again: &FreeTypeRasterizer,
        request: PatternHash,
        matches: Seq<FontMatch>,
        first_face: Option<FaceLoadingProperties>,
        second_face: Option<FaceLoadingProperties>,
    )
        requires
            self.finds_font(request, matches, first_face),
            again.faces() == self.faces_after_load_font(request, matches, first_face),
            again.fallback_lists() == self.lists_after_load_font(request, matches, first_face),
        ensures
            again.finds_font(request, matches, second_face),
            again.faces_after_load_font(request, matches, second_face) == again.faces(),
            again.lists_after_load_font(request, matches, second_face) == again.fallback_lists(),
    {
    }
}

/// Whether the font configuration is to be reloaded `elapsed` nanoseconds
/// after the rasterizer was created, where `last_reload` says when it was
/// last reloaded: the delay has passed since the rasterizer was created, and
/// a whole delay has passed since the last reload.
pub open spec fn reload_is_due(last_reload: Option<u128>, elapsed: u128) -> bool {
    &&& elapsed > RELOAD_DELAY
    &&& last_reload matches Some(last) ==> elapsed >= last + RELOAD_DELAY
}

/// When the font configuration was last reloaded, after the question whether
/// a reload is due was asked at `elapsed`: then, if it was due.
pub open spec fn last_reload_after(last_reload: Option<u128>, elapsed: u128) -> Option<u128> {
    if reload_is_due(last_reload, elapsed) {
        Some(elapsed)
    } else {
        last_reload
    }
}

/// The font configuration is reloaded at most once in each delay: of two
/// questions less than a delay apart, whatever was asked between them, at
/// most one is answered with a reload.
pub proof fn lemma_reloads_are_a_delay_apart(
    last_reload: Option<u128>,
    first: u128,
    between: Seq<u128>,
    second: u128,
)
    requires
        first <= second < first + RELOAD_DELAY,
        forall|i: int| 0 <= i < between.len() ==> first <= #[trigger] between[i] <= second,
    ensures
        !(reload_is_due(last_reload, first) && reload_is_due(
            last_reload_after_all(last_reload_after(last_reload, first), between),
            second,
        )),
{
    if reload_is_due(last_reload, first) {
        lemma_last_reload_is_late(Some(first), between, first, second);
    }
}

/// When the font configuration was last reloaded, after the question whether
/// a reload is due was asked at each of `times` in turn.
pub open spec fn last_reload_after_all(last_reload: Option<u128>, times: Seq<u128>) -> Option<u128>
    decreases times.len(),
{
    if times.len() == 0 {
        last_reload
    } else {
        last_reload_after_all(last_reload_after(last_reload, times[0]), times.skip(1))
    }
}

/// A last reload that is not before `from` stays so over questions that are
/// not before `from`.
proof fn lemma_last_reload_is_late(
    last_reload: Option<u128>,
    times: Seq<u128>,
    from: u128,
    until: u128,
)
    requires
        last_reload matches Some(last) && from <= last <= until,
        forall|i: int| 0 <= i < times.len() ==> from <= #[trigger] times[i] <= until,
    ensures
        last_reload_after_all(last_reload, times) matches Some(last) && from <= last <= until,
    decreases times.len(),
{
    if times.len() > 0 {
        assert(from <= times[0] <= until);
        assert forall|i: int| 0 <= i < times.skip(1).len() implies from <= #[trigger] times.skip(
            1,
        )[i] <= until by {
            assert(times.skip(1)[i] == times[i + 1]);
        }
        lemma_last_reload_is_late(
            last_reload_after(last_reload, times[0]),
            times.skip(1),
            from,
            until,
        );
    }
}

impl FreeTypeRasterizer {
    /// Whether the font configuration is to be reloaded before a font is
    /// loaded, `elapsed` nanoseconds after the rasterizer was created. A
    /// reload that is due counts as done at that time.
    ///
    /// Nothing is reloaded until the delay has passed since the rasterizer
    /// was created, and nothing is reloaded again until the delay has passed
    /// since the last reload: at most one reload falls into each delay.
    pub fn config_reload_due(&mut self, elapsed: u128) -> (due: bool)
        ensures
            due == reload_is_due(old(self).last_reload(), elapsed),
            final(self).last_reload() == last_reload_after(old(self).last_reload(), elapsed),
            final(self).faces() == old(self).faces(),
            final(self).fallback_lists() == old(self).fallback_lists(),
    {
        proof {
            use_type_invariant(&*self);
        }
        let rested: bool = match self.last_reload {
            Some(last) => elapsed >= last && elapsed - last >= RELOAD_DELAY,
            None => true,
        };
        if elapsed > RELOAD_DELAY && rested {
            self.last_reload = Some(elapsed);
            assert(self.fallback_lists() =~= old(self).fallback_lists());
            true
        } else {
            false
        }
    }

    /// Get the metrics of the font `key` from the measures of its face, if
    /// the face has any.
    ///
    /// Fails with `UnknownFontKey` where no face is loaded under the key, and
    /// else with `MetricsNotFound` where the face gave no measures.
    pub fn metrics(
        &self,
        key: FontKey,
        _size: Size,
        native: Option<NativeMetrics>,
    ) -> (metrics: Result<Metrics, Error>)
        ensures
            metrics == if !self.faces().contains_key(key.token()) {
                Err::<Metrics, Error>(Error::UnknownFontKey)
            } else {
                match native {
                    Some(native) => Ok::<Metrics, Error>(native.metrics()),
                    None => Err::<Metrics, Error>(Error::MetricsNotFound),
                }
            },
    {
        if !self.faces.contains_key(&key.raw()) {
            return Err(Error::UnknownFontKey);
        }
        match native {
            Some(native) => Ok(native.to_metrics()),
            None => Err(Error::MetricsNotFound),
        }
    }

    /// Turns what the native rasterizer rendered for `glyph_key` with the
    /// face `font_key` into a glyph.
    ///
    /// The bitmap is brought into canonical form. A glyph of a colored
    /// bitmap face is then scaled to the requested size: its advance is
    /// multiplied by the fixup factor and its pixels are downsampled where
    /// the factor is below one.
    ///
    /// Fails with `UnknownFontKey` where no face is loaded under `font_key`;
    /// with `MissingGlyph`, which holds the unscaled glyph, where the glyph
    /// index is zero; with `MetricsNotFound` where a colored glyph has no
    /// fixup factor.
    pub fn get_glyph(
        &self,
        font_key: FontKey,
        glyph_key: GlyphKey,
        rendered: &RenderedGlyph,
    ) -> (glyph: Result<RasterizedGlyph, Error>)
        ensures
            !self.faces().contains_key(font_key.token()) ==> glyph == Err::<RasterizedGlyph, Error>(
                Error::UnknownFontKey,
            ),
            self.faces().contains_key(font_key.token()) ==> {
                let face = self.faces()[font_key.token()];
                let plain = rendered.plain(glyph_key.character, face.rgba);
                if rendered.glyph_index == 0 {
                    glyph matches Err(Error::MissingGlyph(missing)) && missing@ == plain
                        && missing.is_complete()
                } else if !face.colored_bitmap {
                    glyph matches Ok(found) && found@ == plain && found.is_complete()
                } else {
                    match rendered.fixup_factor(face) {
                        Some(factor) => glyph matches Ok(found) && found@ == rendered.scaled(
                            glyph_key.character,
                            face.rgba,
                            factor,
                        ),
                        None => glyph == Err::<RasterizedGlyph, Error>(Error::MetricsNotFound),
                    }
                }
            },
    {
        let face = match self.faces.get(&font_key.raw()) {
            Some(face) => face,
            None => {
                return Err(Error::UnknownFontKey);
            },
        };
        let (pixel_height, pixel_width, buffer) = rendered.bitmap.normalize_buffer(&face.rgba);
        let rasterized_glyph = RasterizedGlyph {
            character: glyph_key.character,
            top: rendered.top,
            left: rendered.left,
            width: pixel_width,
            height: pixel_height,
            advance: rendered.advance,
            buffer,
        };
        if rendered.glyph_index == 0 {
            return Err(Error::MissingGlyph(rasterized_glyph));
        }
        if !face.colored_bitmap {
            return Ok(rasterized_glyph);
        }
        let fixup_factor: FixupFactor = match face.pixelsize_fixup_factor {
            Some(fixup_factor) => fixup_factor,
            None => {
                // Fallback if the user has bitmap scaling disabled.
                let ppem: u16 = match rendered.y_ppem {
                    Some(ppem) => ppem,
                    None => {
                        return Err(Error::MetricsNotFound);
                    },
                };
                match FixupFactor::new(rendered.pixelsize, 64 * (ppem as u32)) {
                    Some(fixup_factor) => fixup_factor,
                    None => {
                        return Err(Error::MetricsNotFound);
                    },
                }
            },
        };
        // Scale glyph advance.
        let advanced = RasterizedGlyph {
            character: rasterized_glyph.character,
            top: rasterized_glyph.top,
            left: rasterized_glyph.left,
            width: rasterized_glyph.width,
            height: rasterized_glyph.height,
            advance: (
                fixup_factor.scale_advance(rasterized_glyph.advance.0),
                fixup_factor.scale_advance(rasterized_glyph.advance.1),
            ),
            buffer: rasterized_glyph.buffer,
        };
        Ok(downsample_bitmap(advanced, fixup_factor))
    }
}

impl FreeTypeRasterizer {
    /// Whether the search can get from the step `from` to the step `to` by
    /// probes alone, of which it makes no more than `checks`: each probe is
    /// answered with a glyph index that `glyph_index` may give for the face
    /// and the character, and [`Self::step_after_probe`] says what follows.
    pub open spec fn probes_lead<F: Fn(FontKey, char) -> u32>(
        &self,
        glyph_key: GlyphKey,
        from: Step,
        to: Step,
        glyph_index: &F,
        checks: nat,
    ) -> bool
        decreases checks,
    {
        match from {
            Step::Probe { key, position } => checks > 0 && exists|index: u32|
                call_ensures(*glyph_index, (key, glyph_key.character), index) && self.probes_lead(
                    glyph_key,
                    #[trigger] self.step_after_probe(glyph_key, position, index),
                    to,
                    glyph_index,
                    (checks - 1) as nat,
                ),
            _ => from == to,
        }
    }

    /// The number of glyph index checks that a search may still make from
    /// `step` on: one for the primary face and one for each fallback font
    /// that the search has not passed, and one at least for a probe that is
    /// out of place.
    pub open spec fn checks_allowed(&self, glyph_key: GlyphKey, step: Step) -> nat {
        let token = glyph_key.font_key.token();
        let candidates = if self.fallback_lists().contains_key(token) {
            self.fallback_lists()[token].len() as int
        } else {
            0
        };
        if step is Probe && step.checks_left(candidates) < 1 {
            1
        } else {
            step.checks_left(candidates) as nat
        }
    }

    /// Goes on with the search for the face of a character from `step`,
    /// asking `glyph_index` for the glyph index of each loaded face that the
    /// walk comes to, until a face has to be loaded or the search is done.
    ///
    /// The search always ends, and it checks no more glyph indices than
    /// [`Self::checks_allowed`] says. Where it is done, the face to
    /// rasterize with is loaded.
    pub fn search_on<F: Fn(FontKey, char) -> u32>(
        &self,
        glyph_key: GlyphKey,
        step: Step,
        glyph_index: &F,
    ) -> (next: Step)
        requires
            forall|key: FontKey, character: char| call_requires(*glyph_index, (key, character)),
        ensures
            !(next is Probe),
            self.probes_lead(
                glyph_key,
                step,
                next,
                glyph_index,
                self.checks_allowed(glyph_key, step),
            ),
            self.fallback_lists().contains_key(glyph_key.font_key.token()) && self.is_ready(step)
                ==> self.is_ready(next),
    {
        let ghost token = glyph_key.font_key.token();
        let ghost candidates: int = if self.fallback_lists().contains_key(token) {
            self.fallback_lists()[token].len() as int
        } else {
            0
        };
        match self.fallback_lists.get(&glyph_key.font_key.raw()) {
            Some(list) => {
                let len: usize = list.len();
                assert(candidates == len);
            },
            None => {},
        }
        let ghost allowed = self.checks_allowed(glyph_key, step);
        let mut current = step;
        loop
            invariant
                forall|key: FontKey, character: char|
                    call_requires(*glyph_index, (key, character)),
                token == glyph_key.font_key.token(),
                candidates <= usize::MAX,
                candidates == if self.fallback_lists().contains_key(token) {
                    self.fallback_lists()[token].len() as int
                } else {
                    0
                },
                self.fallback_lists().contains_key(token) && self.is_ready(step)
                    ==> self.is_ready(current),
                forall|to: Step| #[trigger]
                    self.probes_lead(
                        glyph_key,
                        current,
                        to,
                        glyph_index,
                        self.checks_allowed(glyph_key, current),
                    ) ==> self.probes_lead(glyph_key, step, to, glyph_index, allowed),
            ensures
                !(current is Probe),
                self.probes_lead(glyph_key, step, current, glyph_index, allowed),
                self.fallback_lists().contains_key(token) && self.is_ready(step)
                    ==> self.is_ready(current),
            decreases
                    if current is Probe {
                        self.checks_allowed(glyph_key, current) + 1
                    } else {
                        0
                    },
        {
            match current {
                Step::Probe { key, position } => {
                    let index: u32 = glyph_index(key, glyph_key.character);
                    let after = self.after_probe(glyph_key, position, index);
                    proof {
                        if self.fallback_lists().contains_key(token) && (position matches Some(p)
                            ==> p < candidates) {
                            self.lemma_probe_uses_a_check(glyph_key, key, position, index);
                        }
                        let had = self.checks_allowed(glyph_key, current);
                        let rest = self.checks_allowed(glyph_key, after);
                        assert(rest <= had - 1);
                        assert forall|to: Step| #[trigger]
                            self.probes_lead(
                                glyph_key,
                                after,
                                to,
                                glyph_index,
                                rest,
                            ) implies self.probes_lead(
                            glyph_key,
                            step,
                            to,
                            glyph_index,
                            allowed,
                        ) by {
                            self.lemma_probes_lead_with_more(
                                glyph_key,
                                after,
                                to,
                                glyph_index,
                                rest,
                                (had - 1) as nat,
                            );
                            assert(self.probes_lead(glyph_key, current, to, glyph_index, had));
                        }
                    }
                    current = after;
                },
                _ => {
                    assert(self.probes_lead(
                        glyph_key,
                        current,
                        current,
                        glyph_index,
                        self.checks_allowed(glyph_key, current),
                    ));
                    break ;
                },
            }
        }
        current
    }

    /// A search that gets somewhere within a number of checks gets there
    /// within every larger number.
    pub proof fn lemma_probes_lead_with_more<F: Fn(FontKey, char) -> u32>(
        &self,
        glyph_key: GlyphKey,
        from: Step,
        to: Step,
        glyph_index: &F,
        checks: nat,
        more: nat,
    )
        requires
            checks <= more,
            self.probes_lead(glyph_key, from, to, glyph_index, checks),
        ensures
            self.probes_lead(glyph_key, from, to, glyph_index, more),
        decreases checks,
    {
        match from {
            Step::Probe { key, position } => {
                let index = choose|index: u32|
                    call_ensures(*glyph_index, (key, glyph_key.character), index)
                        && self.probes_lead(
                        glyph_key,
                        #[trigger] self.step_after_probe(glyph_key, position, index),
                        to,
                        glyph_index,
                        (checks - 1) as nat,
                    );
                self.lemma_probes_lead_with_more(
                    glyph_key,
                    self.step_after_probe(glyph_key, position, index),
                    to,
                    glyph_index,
                    (checks - 1) as nat,
                    (more - 1) as nat,
                );
            },
            _ => {},
        }
    }
}

} // verus!

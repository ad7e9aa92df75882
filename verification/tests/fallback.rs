use crossfont::ft::face::{FaceLoadingProperties, LoadFlags, LoadTarget, RenderMode};
use crossfont::ft::fallback::{FallbackFont, FallbackList, Step};
use crossfont::ft::fc::{CharSet, LcdFilter, PatternHash, Rgba};
use crossfont::ft::{FontMatch, FreeTypeRasterizer, LoadOutcome};
use crossfont::{Error, FontDesc, FontKey, GlyphKey, Size, Style};

fn face() -> FaceLoadingProperties {
    FaceLoadingProperties {
        load_flags: LoadFlags {
            target: LoadTarget::Normal,
            no_hinting: false,
            monochrome: false,
            no_bitmap: false,
            color: false,
            force_autohint: false,
        },
        render_mode: RenderMode::Normal,
        lcd_filter: LcdFilter::Default,
        non_scalable: None,
        colored_bitmap: false,
        embolden: false,
        matrix: None,
        pixelsize_fixup_factor: None,
        rgba: Rgba::Unknown,
    }
}

fn charset(first: char, last: char) -> Option<CharSet> {
    let mut set = CharSet::new();
    set.add_range(first, last);
    Some(set)
}

fn desc() -> FontDesc {
    FontDesc::new("monospace", Style::Specific("Regular".to_owned()))
}

const REQUEST: PatternHash = PatternHash(0x10);

fn key_of(hash: u32) -> FontKey {
    FontKey::from_pattern_hashes(REQUEST, PatternHash(hash))
}

/// A rasterizer with one primary font (hash 1) and three fallback fonts:
/// hash 2 declares a..m, hash 3 declares nothing, hash 4 declares k..z.
fn rasterizer() -> (FreeTypeRasterizer, FontKey) {
    let mut rasterizer = FreeTypeRasterizer::new();
    let matches = vec![
        FontMatch { hash: PatternHash(1), charset: charset('A', 'Z') },
        FontMatch { hash: PatternHash(2), charset: charset('a', 'm') },
        FontMatch { hash: PatternHash(3), charset: None },
        FontMatch { hash: PatternHash(4), charset: charset('k', 'z') },
    ];
    let key = rasterizer.load_font(&desc(), REQUEST, &matches, Some(face())).unwrap();
    (rasterizer, key)
}

fn glyph(character: char, font_key: FontKey) -> GlyphKey {
    GlyphKey { character, font_key, size: Size::new(12_000_000) }
}

#[test]
fn fallback_font_declares_its_charset() {
    let font = FallbackFont::new(charset('a', 'c'), FontKey::from_raw(5));
    assert_eq!(font.key(), FontKey::from_raw(5));
    assert!(font.has_char('b'));
    assert!(!font.has_char('d'));
    let bare = FallbackFont::new(None, FontKey::from_raw(6));
    assert!(!bare.has_char('b'));
}

#[test]
fn list_coverage_is_the_union_of_its_fonts() {
    let list = FallbackList::new(vec![
        FallbackFont::new(charset('a', 'c'), FontKey::from_raw(1)),
        FallbackFont::new(None, FontKey::from_raw(2)),
        FallbackFont::new(charset('x', 'z'), FontKey::from_raw(3)),
    ]);
    assert_eq!(list.len(), 3);
    assert_eq!(list.get(2).key(), FontKey::from_raw(3));
    for c in ['a', 'b', 'c', 'x', 'y', 'z'].iter() {
        assert!(list.covers(*c));
    }
    assert!(!list.covers('d'));
    assert!(!list.covers('w'));
    assert!(!FallbackList::new(Vec::new()).covers('a'));
}

#[test]
fn coverage_only_grows_with_each_font() {
    let mut fonts = Vec::new();
    let mut covered: Vec<char> = Vec::new();
    let ranges = [('a', 'c'), ('b', 'f'), ('0', '3')];
    for (at, (first, last)) in ranges.iter().enumerate() {
        let mut all = Vec::new();
        for (first, last) in ranges[..at].iter() {
            all.push(FallbackFont::new(charset(*first, *last), FontKey::from_raw(0)));
        }
        all.push(FallbackFont::new(charset(*first, *last), FontKey::from_raw(0)));
        let list = FallbackList::new(all);
        for c in covered.iter() {
            assert!(list.covers(*c));
        }
        covered = ('\0'..='\u{7f}').filter(|c| list.covers(*c)).collect();
        fonts.push(at);
    }
    assert_eq!(covered.len(), 6 + 4);
}

#[test]
fn search_starts_with_the_primary_face() {
    let (rasterizer, primary) = rasterizer();
    let first = rasterizer.face_for_glyph(glyph('a', primary)).unwrap();
    assert_eq!(first, Step::Probe { key: primary, position: None });
}

#[test]
fn search_fails_for_unknown_key() {
    let (rasterizer, _) = rasterizer();
    let result = rasterizer.face_for_glyph(glyph('a', FontKey::from_raw(12345)));
    assert!(matches!(result, Err(Error::UnknownFontKey)));
    // A fallback font's key is no primary key either.
    let result = rasterizer.face_for_glyph(glyph('a', key_of(2)));
    assert!(matches!(result, Err(Error::UnknownFontKey)));
}

#[test]
fn primary_glyph_ends_the_search_without_loading() {
    let (rasterizer, primary) = rasterizer();
    assert!(rasterizer.face(primary).is_some());
    let request = glyph('A', primary);
    let first = rasterizer.face_for_glyph(request).unwrap();
    assert_eq!(first, Step::Probe { key: primary, position: None });
    let next = rasterizer.after_probe(request, None, 36);
    assert_eq!(next, Step::Done { key: primary });
    // No fallback face was loaded on the way.
    for hash in [2, 3, 4].iter() {
        assert!(rasterizer.face(key_of(*hash)).is_none());
    }
}

#[test]
fn uncovered_character_stays_with_the_primary_face() {
    let (rasterizer, primary) = rasterizer();
    // No fallback font declares '#'.
    let next = rasterizer.after_probe(glyph('#', primary), None, 0);
    assert_eq!(next, Step::Done { key: primary });
}

#[test]
fn first_declaring_font_is_loaded() {
    let (rasterizer, primary) = rasterizer();
    let next = rasterizer.after_probe(glyph('b', primary), None, 0);
    assert_eq!(next, Step::Load { key: key_of(2), position: 0 });
    // 'x' is declared by the last font only; the font without a charset is
    // passed over.
    let next = rasterizer.after_probe(glyph('x', primary), None, 0);
    assert_eq!(next, Step::Load { key: key_of(4), position: 2 });
}

#[test]
fn loaded_face_is_probed_and_used() {
    let (mut rasterizer, primary) = rasterizer();
    let request = glyph('b', primary);
    let next = rasterizer.after_load(request, 0, LoadOutcome::Loaded(face()));
    assert_eq!(next, Step::Probe { key: key_of(2), position: Some(0) });
    assert!(rasterizer.face(key_of(2)).is_some());
    let next = rasterizer.after_probe(request, Some(0), 7);
    assert_eq!(next, Step::Done { key: key_of(2) });
}

#[test]
fn loaded_face_without_the_glyph_is_passed() {
    let (mut rasterizer, primary) = rasterizer();
    // 'l' is declared by the first and the last fallback font.
    let request = glyph('l', primary);
    assert_eq!(rasterizer.after_probe(request, None, 0), Step::Load { key: key_of(2), position: 0 });
    assert_eq!(
        rasterizer.after_load(request, 0, LoadOutcome::Loaded(face())),
        Step::Probe { key: key_of(2), position: Some(0) }
    );
    // The declared coverage was too wide: the face has no glyph.
    assert_eq!(rasterizer.after_probe(request, Some(0), 0), Step::Load { key: key_of(4), position: 2 });
    assert_eq!(
        rasterizer.after_load(request, 2, LoadOutcome::Loaded(face())),
        Step::Probe { key: key_of(4), position: Some(2) }
    );
    // Nor has the last one: the primary face renders the missing glyph.
    assert_eq!(rasterizer.after_probe(request, Some(2), 0), Step::Done { key: primary });
}

#[test]
fn loaded_faces_are_probed_whatever_they_declare() {
    let (mut rasterizer, primary) = rasterizer();
    // Load the first fallback face through a search for 'b'.
    rasterizer.after_load(glyph('b', primary), 0, LoadOutcome::Loaded(face()));
    // 'x' is not declared by that font, but its face is loaded, so it is
    // asked.
    let request = glyph('x', primary);
    assert_eq!(
        rasterizer.after_probe(request, None, 0),
        Step::Probe { key: key_of(2), position: Some(0) }
    );
    assert_eq!(rasterizer.after_probe(request, Some(0), 0), Step::Load { key: key_of(4), position: 2 });
}

#[test]
fn font_without_a_file_is_passed() {
    let (mut rasterizer, primary) = rasterizer();
    let request = glyph('l', primary);
    assert_eq!(
        rasterizer.after_load(request, 0, LoadOutcome::NoFace),
        Step::Load { key: key_of(4), position: 2 }
    );
    assert!(rasterizer.face(key_of(2)).is_none());
    assert_eq!(rasterizer.after_load(request, 2, LoadOutcome::NoFace), Step::Done { key: primary });
}

#[test]
fn failed_load_ends_with_the_primary_face() {
    let (mut rasterizer, primary) = rasterizer();
    let request = glyph('l', primary);
    assert_eq!(rasterizer.after_load(request, 0, LoadOutcome::Failed), Step::Done { key: primary });
    assert!(rasterizer.face(key_of(2)).is_none());
}

#[test]
fn face_is_recorded_once() {
    let (mut rasterizer, primary) = rasterizer();
    let request = glyph('b', primary);
    let mut first = face();
    first.embolden = true;
    rasterizer.after_load(request, 0, LoadOutcome::Loaded(first));
    rasterizer.after_load(request, 0, LoadOutcome::Loaded(face()));
    assert!(rasterizer.face(key_of(2)).unwrap().embolden);
}

#[test]
fn answer_for_a_face_that_is_not_loaded_is_out_of_place() {
    let (mut rasterizer, primary) = rasterizer();
    let request = glyph('b', primary);
    // The face of the first fallback font was never loaded, so no answer
    // can be about it: the primary face is used.
    assert_eq!(rasterizer.after_probe(request, Some(0), 7), Step::Done { key: primary });
    rasterizer.after_load(request, 0, LoadOutcome::Loaded(face()));
    assert_eq!(rasterizer.after_probe(request, Some(0), 7), Step::Done { key: key_of(2) });
}

#[test]
fn search_ends_with_a_loaded_face() {
    let (mut rasterizer, primary) = rasterizer();
    for character in ['A', 'b', 'l', 'x', '#'].iter() {
        for has_glyph in [0u32, 4].iter() {
            let request = glyph(*character, primary);
            let glyph_index =
                |key: FontKey, _character: char| if key == primary { 0 } else { *has_glyph };
            let mut step = rasterizer.face_for_glyph(request).unwrap();
            let used = loop {
                step = match rasterizer.search_on(request, step, &glyph_index) {
                    Step::Load { position, .. } => {
                        rasterizer.after_load(request, position, LoadOutcome::Loaded(face()))
                    },
                    Step::Done { key } => break key,
                    probe => probe,
                };
            };
            assert!(rasterizer.face(used).is_some());
            assert!(used == primary || [2, 3, 4].iter().any(|hash| key_of(*hash) == used));
        }
    }
}

#[test]
fn steps_out_of_place_end_with_the_primary_face() {
    let (mut rasterizer, primary) = rasterizer();
    let request = glyph('b', primary);
    assert_eq!(rasterizer.after_probe(request, Some(3), 5), Step::Done { key: primary });
    assert_eq!(
        rasterizer.after_load(request, 3, LoadOutcome::Loaded(face())),
        Step::Done { key: primary }
    );
    let stranger = FontKey::from_raw(999);
    assert_eq!(rasterizer.after_probe(glyph('b', stranger), None, 0), Step::Done { key: stranger });
    assert_eq!(
        rasterizer.after_load(glyph('b', stranger), 0, LoadOutcome::NoFace),
        Step::Done { key: stranger }
    );
}

#[test]
fn search_goes_on_by_itself_between_loads() {
    let (mut rasterizer, primary) = rasterizer();
    // Only the face of the last fallback font has a glyph.
    let last = key_of(4);
    let glyph_index = |key: FontKey, _character: char| if key == last { 9 } else { 0 };
    let request = glyph('l', primary);

    let first = rasterizer.face_for_glyph(request).unwrap();
    let step = rasterizer.search_on(request, first, &glyph_index);
    assert_eq!(step, Step::Load { key: key_of(2), position: 0 });
    let step = rasterizer.after_load(request, 0, LoadOutcome::Loaded(face()));
    let step = rasterizer.search_on(request, step, &glyph_index);
    assert_eq!(step, Step::Load { key: last, position: 2 });
    let step = rasterizer.after_load(request, 2, LoadOutcome::Loaded(face()));
    let step = rasterizer.search_on(request, step, &glyph_index);
    assert_eq!(step, Step::Done { key: last });

    // With both faces loaded the search needs no further load.
    let first = rasterizer.face_for_glyph(request).unwrap();
    assert_eq!(rasterizer.search_on(request, first, &glyph_index), Step::Done { key: last });
    // A step that is no probe is handed back.
    let load = Step::Load { key: last, position: 2 };
    assert_eq!(rasterizer.search_on(request, load, &glyph_index), load);
}

#[test]
fn search_counts_its_checks() {
    let (mut rasterizer, primary) = rasterizer();
    for position in 0..3 {
        rasterizer.after_load(glyph('l', primary), position, LoadOutcome::Loaded(face()));
    }
    let checks = std::cell::Cell::new(0);
    let glyph_index = |_key: FontKey, _character: char| {
        checks.set(checks.get() + 1);
        0
    };
    let request = glyph('l', primary);
    let first = rasterizer.face_for_glyph(request).unwrap();
    assert_eq!(rasterizer.search_on(request, first, &glyph_index), Step::Done { key: primary });
    // The primary face and each of the three fallback faces, once.
    assert_eq!(checks.get(), 4);
}

#[test]
fn search_ends_within_one_check_per_font_and_one() {
    // Every face lacks the glyph and every font declares the character: the
    // longest search there is.
    let mut rasterizer = FreeTypeRasterizer::new();
    let candidates: u32 = 25;
    let mut matches = vec![FontMatch { hash: PatternHash(0), charset: None }];
    for hash in 1..=candidates {
        matches.push(FontMatch { hash: PatternHash(hash), charset: charset('a', 'z') });
    }
    let primary = rasterizer.load_font(&desc(), REQUEST, &matches, Some(face())).unwrap();
    let request = glyph('q', primary);

    let mut checks = 0;
    let mut loads = 0;
    let mut step = rasterizer.face_for_glyph(request).unwrap();
    let used = loop {
        step = match step {
            Step::Probe { position, .. } => {
                checks += 1;
                rasterizer.after_probe(request, position, 0)
            },
            Step::Load { position, .. } => {
                loads += 1;
                rasterizer.after_load(request, position, LoadOutcome::Loaded(face()))
            },
            Step::Done { key } => break key,
        };
        assert!(checks <= candidates + 1);
    };
    assert_eq!(used, primary);
    assert_eq!(checks, candidates + 1);
    assert_eq!(loads, candidates);
}

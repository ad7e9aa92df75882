use crossfont::font::{first_with_glyph, MAX_FONT_SIZE, MIN_FONT_SIZE};
use crossfont::ft::fc::PatternHash;
use crossfont::{FontDesc, FontKey, GlyphKey, KeyAllocator, Size, Slant, Style, Weight};

#[test]
fn size_keeps_values_in_range() {
    assert_eq!(Size::new(12_500_000).as_pt(), 12_500_000);
    assert_eq!(Size::new(MIN_FONT_SIZE).as_pt(), 1_000_000);
    assert_eq!(Size::new(MAX_FONT_SIZE).as_pt(), 3_999_000_000);
}

#[test]
fn size_is_clamped_to_one_and_3999_points() {
    assert_eq!(Size::new(0).as_pt(), 1_000_000);
    assert_eq!(Size::new(999_999).as_pt(), 1_000_000);
    assert_eq!(Size::new(3_999_000_001).as_pt(), 3_999_000_000);
    assert_eq!(Size::new(u32::MAX).as_pt(), 3_999_000_000);
}

#[test]
fn size_from_px_takes_three_quarters() {
    // 16 px are 12 pt.
    assert_eq!(Size::from_px(16_000_000).as_pt(), 12_000_000);
    // Rounded toward zero.
    assert_eq!(Size::from_px(10_000_001).as_pt(), 7_500_000);
    assert_eq!(Size::from_px(0).as_pt(), 1_000_000);
    assert_eq!(Size::from_px(u32::MAX).as_pt(), 3_221_225_471);
}

#[test]
fn size_as_px_takes_four_thirds() {
    assert_eq!(Size::new(12_000_000).as_px(), 16_000_000);
    assert_eq!(Size::new(1_000_000).as_px(), 1_333_333);
    assert_eq!(Size::new(MAX_FONT_SIZE).as_px(), 5_332_000_000);
}

#[test]
fn size_scales_by_a_fraction() {
    assert_eq!(Size::new(12_000_000).scale(3, 2).as_pt(), 18_000_000);
    assert_eq!(Size::new(10_000_000).scale(1, 3).as_pt(), 3_333_333);
    assert_eq!(Size::new(12_000_000).scale(0, 5).as_pt(), 1_000_000);
    assert_eq!(Size::new(MAX_FONT_SIZE).scale(u32::MAX, 1).as_pt(), 3_999_000_000);
}

#[test]
fn size_orders_by_its_value() {
    assert!(Size::new(10_000_000) < Size::new(11_000_000));
    assert_eq!(Size::new(10_000_000), Size::new(10_000_000));
}

#[test]
fn keys_count_up_from_zero() {
    let mut allocator = KeyAllocator::new();
    let first = FontKey::next(&mut allocator);
    let second = FontKey::next(&mut allocator);
    let third = FontKey::next(&mut allocator);
    assert_eq!((first.raw(), second.raw(), third.raw()), (0, 1, 2));
    assert!(first != second && second != third && first != third);
}

#[test]
fn keys_strictly_increase() {
    let mut allocator = KeyAllocator::new();
    let mut last = FontKey::next(&mut allocator).raw();
    for _ in 0..1000 {
        let next = FontKey::next(&mut allocator).raw();
        assert!(next > last);
        last = next;
    }
}

#[test]
fn allocators_do_not_share_a_counter() {
    let mut one = KeyAllocator::new();
    let mut other = KeyAllocator::new();
    assert_eq!(FontKey::next(&mut one).raw(), 0);
    assert_eq!(FontKey::next(&mut one).raw(), 1);
    assert_eq!(FontKey::next(&mut other).raw(), 0);
}

#[test]
fn key_from_raw_round_trips() {
    assert_eq!(FontKey::from_raw(77).raw(), 77);
    assert_eq!(FontKey::from_raw(77), FontKey::from_raw(77));
}

#[test]
fn key_from_hashes_rotates_and_xors() {
    let key = FontKey::from_pattern_hashes(PatternHash(0x8000_0001), PatternHash(0x0000_00f0));
    assert_eq!(key.raw(), 0x0000_00f3);
    let key = FontKey::from_pattern_hashes(PatternHash(0x4000_0000), PatternHash(0));
    assert_eq!(key.raw(), 0x8000_0000);
    let key = FontKey::from_pattern_hashes(PatternHash(0), PatternHash(0xdead_beef));
    assert_eq!(key.raw(), 0xdead_beef);
    // The two hashes do not commute.
    assert_ne!(
        FontKey::from_pattern_hashes(PatternHash(1), PatternHash(2)),
        FontKey::from_pattern_hashes(PatternHash(2), PatternHash(1))
    );
}

#[test]
fn descriptions_compare_by_name_and_style() {
    let regular = FontDesc::new("Menlo", Style::Specific("Regular".to_owned()));
    let same = FontDesc::new("Menlo", Style::Specific("Regular".to_owned()));
    let bold = FontDesc::new("Menlo", Style::Specific("Bold".to_owned()));
    let other = FontDesc::new("Monaco", Style::Specific("Regular".to_owned()));
    let described =
        FontDesc::new("Menlo", Style::Description { slant: Slant::Normal, weight: Weight::Bold });
    assert!(regular == same);
    assert!(regular != bold);
    assert!(regular != other);
    assert!(bold != described);
    assert!(regular.duplicate() == regular);
    assert!(regular.clone() == regular);
    assert_eq!(regular.name(), "Menlo");
    assert!(*regular.style() == Style::Specific("Regular".to_owned()));
}

#[test]
fn styles_compare_by_their_parts() {
    let italic = Style::Description { slant: Slant::Italic, weight: Weight::Normal };
    assert!(italic == Style::Description { slant: Slant::Italic, weight: Weight::Normal });
    assert!(italic != Style::Description { slant: Slant::Oblique, weight: Weight::Normal });
    assert!(italic != Style::Description { slant: Slant::Italic, weight: Weight::Bold });
    assert!(italic != Style::Specific("Italic".to_owned()));
}

#[test]
fn style_text_names_the_style() {
    assert_eq!(Style::Specific("Bold Italic".to_owned()).to_string(), "Bold Italic");
    let described = Style::Description { slant: Slant::Oblique, weight: Weight::Bold };
    assert_eq!(described.to_string(), "slant=Oblique, weight=Bold");
    let plain = Style::Description { slant: Slant::Normal, weight: Weight::Normal };
    assert_eq!(plain.to_string(), "slant=Normal, weight=Normal");
}

#[test]
fn description_text_joins_family_and_style() {
    let desc = FontDesc::new("Menlo", Style::Specific("Regular".to_owned()));
    assert_eq!(desc.to_string(), "Menlo - Regular");
    let desc =
        FontDesc::new("Fira", Style::Description { slant: Slant::Italic, weight: Weight::Normal });
    assert_eq!(desc.to_string(), "Fira - slant=Italic, weight=Normal");
}

#[test]
fn debug_text_is_the_derived_one() {
    let specific = FontDesc::new("Me\"n\\lo", Style::Specific("Reg\nular".to_owned()));
    assert_eq!(specific.debug_string(), format!("{:?}", specific));
    assert_eq!(
        specific.debug_string(),
        "FontDesc { name: \"Me\\\"n\\\\lo\", style: Specific(\"Reg\\nular\") }"
    );
    let described =
        FontDesc::new("Fira", Style::Description { slant: Slant::Italic, weight: Weight::Bold });
    assert_eq!(described.debug_string(), format!("{:?}", described));
    assert_eq!(
        described.debug_string(),
        "FontDesc { name: \"Fira\", style: Description { slant: Italic, weight: Bold } }"
    );
    assert_eq!(described.style().debug_string(), format!("{:?}", described.style()));
}

#[test]
fn slant_and_weight_have_names() {
    assert_eq!(Slant::Normal.name(), "Normal");
    assert_eq!(Slant::Italic.name(), "Italic");
    assert_eq!(Slant::Oblique.name(), "Oblique");
    assert_eq!(Weight::Normal.name(), "Normal");
    assert_eq!(Weight::Bold.name(), "Bold");
}

#[test]
fn style_is_found_by_its_exact_name() {
    let names =
        vec!["Regular".to_owned(), "Bold".to_owned(), "Italic".to_owned(), "Bold".to_owned()];
    assert_eq!(FontDesc::position_of_style(&"Regular".to_owned(), &names), Some(0));
    assert_eq!(FontDesc::position_of_style(&"Bold".to_owned(), &names), Some(1));
    assert_eq!(FontDesc::position_of_style(&"Italic".to_owned(), &names), Some(2));
    assert_eq!(FontDesc::position_of_style(&"bold".to_owned(), &names), None);
    assert_eq!(FontDesc::position_of_style(&"Bol".to_owned(), &names), None);
    assert_eq!(FontDesc::position_of_style(&"Bold".to_owned(), &Vec::new()), None);
}

#[test]
fn glyph_keys_compare_by_all_parts() {
    let key = GlyphKey { character: 'a', font_key: FontKey::from_raw(1), size: Size::new(12_000_000) };
    assert_eq!(key, GlyphKey { character: 'a', font_key: FontKey::from_raw(1), size: Size::new(12_000_000) });
    assert_ne!(key, GlyphKey { character: 'b', font_key: FontKey::from_raw(1), size: Size::new(12_000_000) });
    assert_ne!(key, GlyphKey { character: 'a', font_key: FontKey::from_raw(2), size: Size::new(12_000_000) });
    assert_ne!(key, GlyphKey { character: 'a', font_key: FontKey::from_raw(1), size: Size::new(13_000_000) });
}

#[test]
fn first_font_with_the_glyph_is_picked() {
    let indices = [0u32, 0, 7, 0, 9];
    let asked = std::cell::Cell::new(0);
    let glyph_index = |position: usize| {
        asked.set(asked.get() + 1);
        indices[position]
    };
    assert_eq!(first_with_glyph(5, &glyph_index), Some((2, 7)));
    // No font behind the one that is picked was asked.
    assert_eq!(asked.get(), 3);
    assert_eq!(first_with_glyph(2, &glyph_index), None);
    assert_eq!(first_with_glyph(0, &glyph_index), None);
    assert_eq!(first_with_glyph(1, &|_position: usize| 5), Some((0, 5)));
}

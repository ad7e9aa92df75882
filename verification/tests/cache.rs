use crossfont::cache::KeyCache;
use crossfont::darwin::byte_order::{big_endian, little_endian};
use crossfont::darwin::{glyph_from_pixels, glyph_from_pixels_big_endian, CoreTextRasterizer};
use crossfont::directwrite::{platform_error, DirectWriteRasterizer};
use crossfont::{BitmapBuffer, Error, FontDesc, Size, Slant, Style, Weight};

fn desc(name: &str) -> FontDesc {
    FontDesc::new(name, Style::Description { slant: Slant::Normal, weight: Weight::Normal })
}

#[test]
fn cache_starts_empty() {
    let cache = KeyCache::new();
    assert!(cache.get(&desc("Menlo"), None).is_none());
    assert!(cache.get(&desc("Menlo"), Some(Size::new(12_000_000))).is_none());
}

#[test]
fn cache_hands_the_same_key_again() {
    let mut cache = KeyCache::new();
    let size = Some(Size::new(12_000_000));
    let first = cache.load(&desc("Menlo"), size, true).unwrap();
    let second = cache.load(&desc("Menlo"), size, true).unwrap();
    // Found or not, a cached font keeps its key.
    let third = cache.load(&desc("Menlo"), size, false).unwrap();
    assert_eq!(first, second);
    assert_eq!(first, third);
    assert_eq!(cache.get(&desc("Menlo"), size), Some(first));
}

#[test]
fn cache_tells_descriptions_and_sizes_apart() {
    let mut cache = KeyCache::new();
    let small = cache.load(&desc("Menlo"), Some(Size::new(12_000_000)), true).unwrap();
    let large = cache.load(&desc("Menlo"), Some(Size::new(13_000_000)), true).unwrap();
    let other = cache.load(&desc("Monaco"), Some(Size::new(12_000_000)), true).unwrap();
    let unsized_one = cache.load(&desc("Menlo"), None, true).unwrap();
    let bold = FontDesc::new("Menlo", Style::Description { slant: Slant::Normal, weight: Weight::Bold });
    let heavy = cache.load(&bold, Some(Size::new(12_000_000)), true).unwrap();
    assert_eq!(
        (small.raw(), large.raw(), other.raw(), unsized_one.raw(), heavy.raw()),
        (0, 1, 2, 3, 4)
    );
    assert_eq!(cache.get(&desc("Menlo"), Some(Size::new(13_000_000))), Some(large));
    assert_eq!(cache.get(&desc("Menlo"), None), Some(unsized_one));
}

#[test]
fn cache_keeps_no_font_that_was_not_found() {
    let mut cache = KeyCache::new();
    let result = cache.load(&desc("Nowhere"), None, false);
    match result {
        Err(Error::FontNotFound(missing)) => assert!(missing == desc("Nowhere")),
        _ => panic!("expected FontNotFound"),
    }
    assert!(cache.get(&desc("Nowhere"), None).is_none());
    // No key was spent on it.
    assert_eq!(cache.load(&desc("Menlo"), None, true).unwrap().raw(), 0);
}

#[test]
fn core_text_loads_a_font_once_for_each_size() {
    let mut rasterizer = CoreTextRasterizer::new();
    let size = Size::new(12_000_000);
    assert!(rasterizer.loaded_font(&desc("Menlo"), size).is_none());
    let first = rasterizer.load_font(&desc("Menlo"), size, true).unwrap();
    assert_eq!(rasterizer.load_font(&desc("Menlo"), size, true).unwrap(), first);
    assert_eq!(rasterizer.loaded_font(&desc("Menlo"), size), Some(first));
    let larger = rasterizer.load_font(&desc("Menlo"), Size::new(14_000_000), true).unwrap();
    assert!(larger.raw() > first.raw());
    assert!(matches!(
        rasterizer.load_font(&desc("Nowhere"), size, false),
        Err(Error::FontNotFound(_))
    ));
}

#[test]
fn direct_write_loads_a_font_once() {
    let mut rasterizer = DirectWriteRasterizer::new();
    assert!(rasterizer.loaded_font(&desc("Consolas")).is_none());
    let first = rasterizer.load_font(&desc("Consolas"), true).unwrap();
    assert_eq!(rasterizer.load_font(&desc("Consolas"), false).unwrap(), first);
    assert_eq!(rasterizer.loaded_font(&desc("Consolas")), Some(first));
    let other = rasterizer.load_font(&desc("Cascadia"), true).unwrap();
    assert!(other.raw() > first.raw());
    assert!(matches!(rasterizer.load_font(&desc("Nowhere"), false), Err(Error::FontNotFound(_))));
}

#[test]
fn specific_face_is_the_first_of_that_style() {
    let names = vec!["Regular".to_owned(), "Bold".to_owned(), "Bold".to_owned()];
    let font = desc("Menlo");
    assert_eq!(CoreTextRasterizer::get_specific_face(&font, &"Bold".to_owned(), &names).unwrap(), 1);
    match CoreTextRasterizer::get_specific_face(&font, &"Thin".to_owned(), &names) {
        Err(Error::FontNotFound(missing)) => assert!(missing == font),
        _ => panic!("expected FontNotFound"),
    }
}

#[test]
fn matching_face_is_the_first_with_those_traits() {
    // Pairs of bold and italic.
    let traits = vec![(false, false), (true, false), (false, true), (true, true), (true, false)];
    let font = desc("Menlo");
    let pick = |slant, weight| CoreTextRasterizer::get_matching_face(&font, slant, weight, &traits);
    assert_eq!(pick(Slant::Normal, Weight::Normal).unwrap(), 0);
    assert_eq!(pick(Slant::Normal, Weight::Bold).unwrap(), 1);
    assert_eq!(pick(Slant::Italic, Weight::Normal).unwrap(), 2);
    // Oblique asks for an italic font too.
    assert_eq!(pick(Slant::Oblique, Weight::Normal).unwrap(), 2);
    assert_eq!(pick(Slant::Oblique, Weight::Bold).unwrap(), 3);
    let upright = vec![(false, false)];
    match CoreTextRasterizer::get_matching_face(&font, Slant::Italic, Weight::Normal, &upright) {
        Err(Error::FontNotFound(missing)) => assert!(missing == font),
        _ => panic!("expected FontNotFound"),
    }
}

#[test]
fn little_endian_pixels_are_reordered() {
    let bytes = [1, 2, 3, 4, 5, 6, 7, 8, 9, 10];
    assert_eq!(little_endian::extract_rgba(&bytes), vec![3, 2, 1, 4, 7, 6, 5, 8]);
    assert_eq!(little_endian::extract_rgb(&bytes), vec![3, 2, 1, 7, 6, 5]);
    assert_eq!(little_endian::extract_rgba(&[1, 2, 3]), Vec::<u8>::new());
    assert_eq!(little_endian::extract_rgb(&[]), Vec::<u8>::new());
}

#[test]
fn big_endian_pixels_lose_their_alpha() {
    let bytes = vec![1, 2, 3, 4, 5, 6, 7, 8, 9, 10];
    assert_eq!(big_endian::extract_rgba(bytes.clone()), bytes);
    assert_eq!(big_endian::extract_rgb(bytes), vec![2, 3, 4, 6, 7, 8, 10]);
    assert_eq!(big_endian::extract_rgb(vec![1]), Vec::<u8>::new());
    assert_eq!(big_endian::extract_rgb(vec![1, 2, 3, 4]), vec![2, 3, 4]);
    assert_eq!(big_endian::extract_rgb(Vec::new()), Vec::<u8>::new());
}

#[test]
fn glyph_from_context_pixels() {
    let pixels = [1, 2, 3, 4, 5, 6, 7, 8];
    let mask = glyph_from_pixels('a', -1, 7, 2, 1, false, &pixels);
    assert_eq!(mask.character, 'a');
    assert_eq!((mask.left, mask.top, mask.width, mask.height), (-1, 7, 2, 1));
    assert_eq!(mask.advance, (0, 0));
    match mask.buffer {
        BitmapBuffer::Rgb(bytes) => assert_eq!(bytes, vec![3, 2, 1, 7, 6, 5]),
        BitmapBuffer::Rgba(_) => panic!("expected an RGB buffer"),
    }
    let colored = glyph_from_pixels('a', -1, 7, 2, 1, true, &pixels);
    match colored.buffer {
        BitmapBuffer::Rgba(bytes) => assert_eq!(bytes, vec![3, 2, 1, 4, 7, 6, 5, 8]),
        BitmapBuffer::Rgb(_) => panic!("expected an RGBA buffer"),
    }
}

#[test]
fn glyph_without_extent_is_blank() {
    for (width, height) in [(0, 3), (3, 0), (0, 0)].iter() {
        let blank = glyph_from_pixels('a', -1, 7, *width, *height, true, &[1, 2, 3, 4]);
        assert_eq!(blank.character, ' ');
        assert_eq!((blank.left, blank.top, blank.width, blank.height), (0, 0, 0, 0));
        match blank.buffer {
            BitmapBuffer::Rgb(bytes) => assert!(bytes.is_empty()),
            BitmapBuffer::Rgba(_) => panic!("expected an RGB buffer"),
        }
    }
}

#[test]
fn texture_bounds_place_the_glyph() {
    let glyph = DirectWriteRasterizer::rasterize_glyph('g', -2, -9, 6, 3, vec![1, 2, 3]);
    assert_eq!(glyph.character, 'g');
    assert_eq!((glyph.width, glyph.height, glyph.top, glyph.left), (8, 12, 9, -2));
    assert_eq!(glyph.advance, (0, 0));
    match glyph.buffer {
        BitmapBuffer::Rgb(bytes) => assert_eq!(bytes, vec![1, 2, 3]),
        BitmapBuffer::Rgba(_) => panic!("expected an RGB buffer"),
    }
}

#[test]
fn hresult_shows_in_upper_case_hex() {
    let message = |hresult: i32| match platform_error(hresult) {
        Error::PlatformError(message) => message,
        _ => panic!("expected PlatformError"),
    };
    assert_eq!(message(0), "a DirectWrite rendering error occurred: 0");
    assert_eq!(message(0x1f), "a DirectWrite rendering error occurred: 1F");
    assert_eq!(message(0x1000), "a DirectWrite rendering error occurred: 1000");
    assert_eq!(message(-2147024809), "a DirectWrite rendering error occurred: 80070057");
    assert_eq!(message(-1), "a DirectWrite rendering error occurred: FFFFFFFF");
    assert_eq!(message(i32::MAX), "a DirectWrite rendering error occurred: 7FFFFFFF");
    for hresult in [0, 9, 10, 255, 256, -7, i32::MIN, 0x0abc_def0].iter() {
        assert_eq!(
            message(*hresult),
            format!("a DirectWrite rendering error occurred: {:X}", hresult)
        );
    }
}

#[test]
fn glyph_from_big_endian_context_pixels() {
    let pixels = vec![1, 2, 3, 4, 5, 6, 7, 8];
    let mask = glyph_from_pixels_big_endian('a', -1, 7, 2, 1, false, pixels.clone());
    assert_eq!(mask.character, 'a');
    assert_eq!((mask.left, mask.top, mask.width, mask.height), (-1, 7, 2, 1));
    assert_eq!(mask.advance, (0, 0));
    match mask.buffer {
        BitmapBuffer::Rgb(bytes) => assert_eq!(bytes, vec![2, 3, 4, 6, 7, 8]),
        BitmapBuffer::Rgba(_) => panic!("expected an RGB buffer"),
    }
    let colored = glyph_from_pixels_big_endian('a', -1, 7, 2, 1, true, pixels.clone());
    match colored.buffer {
        BitmapBuffer::Rgba(bytes) => assert_eq!(bytes, pixels),
        BitmapBuffer::Rgb(_) => panic!("expected an RGBA buffer"),
    }
    let blank = glyph_from_pixels_big_endian('a', -1, 7, 0, 1, true, pixels);
    assert_eq!(blank.character, ' ');
    assert_eq!((blank.left, blank.top, blank.width, blank.height), (0, 0, 0, 0));
}

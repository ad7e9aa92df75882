use crossfont::ft::downsample::{downsample_bitmap, FixupFactor};
use crossfont::{BitmapBuffer, RasterizedGlyph};

fn colored(width: i32, height: i32, bytes: Vec<u8>) -> RasterizedGlyph {
    RasterizedGlyph {
        character: 'x',
        width,
        height,
        top: 9,
        left: -5,
        advance: (7, 0),
        buffer: BitmapBuffer::Rgba(bytes),
    }
}

fn bytes_of(glyph: &RasterizedGlyph) -> Vec<u8> {
    match &glyph.buffer {
        BitmapBuffer::Rgba(bytes) => bytes.clone(),
        BitmapBuffer::Rgb(_) => panic!("expected an RGBA buffer"),
    }
}

#[test]
fn factor_needs_a_denominator() {
    assert!(FixupFactor::new(1, 0).is_none());
    let factor = FixupFactor::new(3, 4).unwrap();
    assert_eq!(factor.numerator(), 3);
    assert_eq!(factor.denominator(), 4);
}

#[test]
fn factor_one_leaves_the_glyph_alone() {
    let bytes: Vec<u8> = (0..16).collect();
    let glyph = colored(2, 2, bytes.clone());
    let scaled = downsample_bitmap(glyph, FixupFactor::new(5, 5).unwrap());
    assert_eq!((scaled.width, scaled.height, scaled.top, scaled.left), (2, 2, 9, -5));
    assert_eq!(scaled.advance, (7, 0));
    assert_eq!(bytes_of(&scaled), bytes);
}

#[test]
fn factor_above_one_leaves_the_glyph_alone() {
    let bytes: Vec<u8> = (0..16).collect();
    let scaled = downsample_bitmap(colored(2, 2, bytes.clone()), FixupFactor::new(3, 2).unwrap());
    assert_eq!((scaled.width, scaled.height), (2, 2));
    assert_eq!(bytes_of(&scaled), bytes);
}

#[test]
fn alpha_masks_are_never_scaled() {
    let glyph = RasterizedGlyph {
        character: 'x',
        width: 2,
        height: 2,
        top: 9,
        left: -5,
        advance: (7, 0),
        buffer: BitmapBuffer::Rgb(vec![1; 12]),
    };
    let scaled = downsample_bitmap(glyph, FixupFactor::new(1, 2).unwrap());
    assert_eq!((scaled.width, scaled.height, scaled.top, scaled.left), (2, 2, 9, -5));
    match scaled.buffer {
        BitmapBuffer::Rgb(bytes) => assert_eq!(bytes, vec![1; 12]),
        BitmapBuffer::Rgba(_) => panic!("expected an RGB buffer"),
    }
}

#[test]
fn half_size_averages_two_by_two_boxes() {
    // 4 x 2 pixels; channel values chosen so that the means are exact or
    // round down.
    let mut bytes = Vec::new();
    let rows: [[u8; 4]; 2] = [[10, 20, 100, 101], [30, 40, 102, 104]];
    for row in rows.iter() {
        for value in row.iter() {
            bytes.extend_from_slice(&[*value, value / 2, 255, 0]);
        }
    }
    let scaled = downsample_bitmap(colored(4, 2, bytes), FixupFactor::new(1, 2).unwrap());
    assert_eq!((scaled.width, scaled.height), (2, 1));
    // (10 + 20 + 30 + 40) / 4 = 25; (100 + 101 + 102 + 104) / 4 = 101 (rounded down).
    // (5 + 10 + 15 + 20) / 4 = 12 (rounded down); (50 + 50 + 51 + 52) / 4 = 50.
    assert_eq!(bytes_of(&scaled), vec![25, 12, 255, 0, 101, 50, 255, 0]);
    // Offsets are scaled toward zero, the advance is left alone.
    assert_eq!((scaled.top, scaled.left), (4, -2));
    assert_eq!(scaled.advance, (7, 0));
}

#[test]
fn source_boxes_follow_rounded_edges() {
    // Five columns to two: step 2.5, edges round(0), round(2.5), round(5),
    // so the boxes are columns 0..3 and 3..5.
    let mut bytes = Vec::new();
    for value in [3u8, 6, 9, 20, 40].iter() {
        bytes.extend_from_slice(&[*value, 0, 0, 255]);
    }
    let scaled = downsample_bitmap(colored(5, 1, bytes), FixupFactor::new(2, 5).unwrap());
    // Height 1 * 2 / 5 rounds down to no row at all.
    assert_eq!((scaled.width, scaled.height), (2, 0));
    assert_eq!(bytes_of(&scaled), Vec::<u8>::new());

    let mut bytes = Vec::new();
    for _row in 0..5 {
        for value in [3u8, 6, 9, 20, 40].iter() {
            bytes.extend_from_slice(&[*value, 0, 0, 255]);
        }
    }
    let scaled = downsample_bitmap(colored(5, 5, bytes), FixupFactor::new(2, 5).unwrap());
    assert_eq!((scaled.width, scaled.height), (2, 2));
    assert_eq!(bytes_of(&scaled), vec![6, 0, 0, 255, 30, 0, 0, 255, 6, 0, 0, 255, 30, 0, 0, 255]);
}

#[test]
fn uniform_color_survives_downsampling() {
    let mut bytes = Vec::new();
    for _pixel in 0..(7 * 5) {
        bytes.extend_from_slice(&[200, 100, 50, 25]);
    }
    let scaled = downsample_bitmap(colored(7, 5, bytes), FixupFactor::new(3, 7).unwrap());
    assert_eq!((scaled.width, scaled.height), (3, 2));
    let out = bytes_of(&scaled);
    assert_eq!(out.len(), 3 * 2 * 4);
    for pixel in out.chunks(4) {
        assert_eq!(pixel, &[200, 100, 50, 25]);
    }
}

#[test]
fn factor_zero_leaves_no_pixel() {
    let scaled = downsample_bitmap(colored(2, 2, vec![9; 16]), FixupFactor::new(0, 1).unwrap());
    assert_eq!((scaled.width, scaled.height, scaled.top, scaled.left), (0, 0, 0, 0));
    assert_eq!(bytes_of(&scaled), Vec::<u8>::new());
}

#[test]
fn advance_is_rounded_to_nearest_with_halves_away_from_zero() {
    let half = FixupFactor::new(1, 2).unwrap();
    assert_eq!(half.scale_advance(7), 4);
    assert_eq!(half.scale_advance(-7), -4);
    assert_eq!(half.scale_advance(6), 3);
    assert_eq!(half.scale_advance(0), 0);
    let third = FixupFactor::new(1, 3).unwrap();
    assert_eq!(third.scale_advance(4), 1);
    assert_eq!(third.scale_advance(5), 2);
    assert_eq!(third.scale_advance(-5), -2);
}

#[test]
fn advance_stays_inside_i32() {
    let huge = FixupFactor::new(u32::MAX, 1).unwrap();
    assert_eq!(huge.scale_advance(i32::MAX), i32::MAX);
    assert_eq!(huge.scale_advance(i32::MIN), i32::MIN);
    assert_eq!(huge.scale_advance(1), i32::MAX);
    assert_eq!(huge.scale_advance(-1), i32::MIN);
    let one = FixupFactor::new(1, 1).unwrap();
    assert_eq!(one.scale_advance(i32::MIN), i32::MIN);
    assert_eq!(one.scale_advance(i32::MAX), i32::MAX);
}

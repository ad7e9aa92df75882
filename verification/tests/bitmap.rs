use crossfont::ft::bitmap::{NativeBitmap, PixelMode};
use crossfont::ft::fc::Rgba;
use crossfont::BitmapBuffer;

fn normalize(rows: i32, width: i32, pitch: i32, mode: PixelMode, bytes: Vec<u8>, rgba: Rgba) -> (i32, i32, BitmapBuffer) {
    let bitmap = NativeBitmap::new(rows, width, pitch, mode, bytes).expect("the parts fit");
    bitmap.normalize_buffer(&rgba)
}

fn rgb(buffer: BitmapBuffer) -> Vec<u8> {
    match buffer {
        BitmapBuffer::Rgb(bytes) => bytes,
        BitmapBuffer::Rgba(_) => panic!("expected an RGB buffer"),
    }
}

fn rgba(buffer: BitmapBuffer) -> Vec<u8> {
    match buffer {
        BitmapBuffer::Rgba(bytes) => bytes,
        BitmapBuffer::Rgb(_) => panic!("expected an RGBA buffer"),
    }
}

#[test]
fn mono_single_set_bit_is_white() {
    let (height, width, buffer) = normalize(1, 1, 1, PixelMode::Mono, vec![0x80], Rgba::Unknown);
    assert_eq!((height, width), (1, 1));
    assert_eq!(rgb(buffer), vec![255, 255, 255]);
}

#[test]
fn mono_single_clear_bit_is_black() {
    let (_, _, buffer) = normalize(1, 1, 1, PixelMode::Mono, vec![0x7f], Rgba::Unknown);
    assert_eq!(rgb(buffer), vec![0, 0, 0]);
}

#[test]
fn gray_single_byte_is_replicated() {
    let (height, width, buffer) = normalize(1, 1, 1, PixelMode::Gray, vec![128], Rgba::Unknown);
    assert_eq!((height, width), (1, 1));
    assert_eq!(rgb(buffer), vec![128, 128, 128]);
}

#[test]
fn bgra_single_pixel_is_reordered() {
    let (height, width, buffer) =
        normalize(1, 1, 4, PixelMode::Bgra, vec![10, 20, 30, 255], Rgba::Unknown);
    assert_eq!((height, width), (1, 1));
    assert_eq!(rgba(buffer), vec![30, 20, 10, 255]);
}

#[test]
fn mono_unpacks_most_significant_bit_first_across_bytes() {
    // Ten columns: 1010_0000 11......, second row 0000_0001 01......
    let bytes = vec![0b1010_0000, 0b1100_0000, 0b0000_0001, 0b0100_0000];
    let (height, width, buffer) = normalize(2, 10, 2, PixelMode::Mono, bytes, Rgba::Unknown);
    assert_eq!((height, width), (2, 10));
    let bits: Vec<u8> = rgb(buffer).chunks(3).map(|pixel| {
        assert_eq!(pixel[0], pixel[1]);
        assert_eq!(pixel[1], pixel[2]);
        pixel[0]
    }).collect();
    assert_eq!(
        bits,
        vec![255, 0, 255, 0, 0, 0, 0, 0, 255, 255, 0, 0, 0, 0, 0, 0, 0, 255, 0, 255]
    );
}

#[test]
fn gray_skips_row_padding() {
    let bytes = vec![1, 2, 99, 99, 3, 4, 99, 99];
    let (height, width, buffer) = normalize(2, 2, 4, PixelMode::Gray, bytes, Rgba::Unknown);
    assert_eq!((height, width), (2, 2));
    assert_eq!(rgb(buffer), vec![1, 1, 1, 2, 2, 2, 3, 3, 3, 4, 4, 4]);
}

#[test]
fn negative_pitch_counts_by_its_size() {
    let bytes = vec![1, 2, 99, 99, 3, 4, 99, 99];
    let (_, _, buffer) = normalize(2, 2, -4, PixelMode::Gray, bytes, Rgba::Unknown);
    assert_eq!(rgb(buffer), vec![1, 1, 1, 2, 2, 2, 3, 3, 3, 4, 4, 4]);
}

#[test]
fn lcd_keeps_native_order_for_rgb_geometry() {
    let bytes = vec![1, 2, 3, 4, 5, 6, 0, 0];
    let (height, width, buffer) = normalize(1, 6, 8, PixelMode::Lcd, bytes, Rgba::Rgb);
    assert_eq!((height, width), (1, 2));
    assert_eq!(rgb(buffer), vec![1, 2, 3, 4, 5, 6]);
}

#[test]
fn lcd_swaps_red_and_blue_for_bgr_geometry() {
    let bytes = vec![1, 2, 3, 4, 5, 6, 0, 0];
    let (height, width, buffer) = normalize(1, 6, 8, PixelMode::Lcd, bytes, Rgba::Bgr);
    assert_eq!((height, width), (1, 2));
    assert_eq!(rgb(buffer), vec![3, 2, 1, 6, 5, 4]);
}

#[test]
fn lcd_v_reads_triads_down_the_rows() {
    // Two columns, six rows: two pixel rows of three subpixel rows each.
    let bytes = vec![1, 11, 2, 12, 3, 13, 4, 14, 5, 15, 6, 16];
    let (height, width, buffer) = normalize(6, 2, 2, PixelMode::LcdV, bytes.clone(), Rgba::Vrgb);
    assert_eq!((height, width), (2, 2));
    assert_eq!(rgb(buffer), vec![1, 2, 3, 11, 12, 13, 4, 5, 6, 14, 15, 16]);

    let (_, _, buffer) = normalize(6, 2, 2, PixelMode::LcdV, bytes, Rgba::Vbgr);
    assert_eq!(rgb(buffer), vec![3, 2, 1, 13, 12, 11, 6, 5, 4, 16, 15, 14]);
}

#[test]
fn lcd_v_ignores_rows_behind_the_last_whole_triad() {
    let bytes = vec![1, 2, 3, 4];
    let (height, width, buffer) = normalize(4, 1, 1, PixelMode::LcdV, bytes, Rgba::Unknown);
    assert_eq!((height, width), (1, 1));
    assert_eq!(rgb(buffer), vec![1, 2, 3]);
}

#[test]
fn bgra_reorders_every_pixel() {
    let bytes = vec![1, 2, 3, 4, 5, 6, 7, 8, 9, 10, 11, 12, 13, 14, 15, 16];
    let (height, width, buffer) = normalize(2, 2, 8, PixelMode::Bgra, bytes, Rgba::Unknown);
    assert_eq!((height, width), (2, 2));
    assert_eq!(rgba(buffer), vec![3, 2, 1, 4, 7, 6, 5, 8, 11, 10, 9, 12, 15, 14, 13, 16]);
}

#[test]
fn empty_bitmap_gives_empty_buffer() {
    let (height, width, buffer) = normalize(0, 0, 0, PixelMode::Gray, vec![], Rgba::Unknown);
    assert_eq!((height, width), (0, 0));
    assert_eq!(rgb(buffer), Vec::<u8>::new());
}

#[test]
fn parts_that_do_not_fit_make_no_bitmap() {
    // Negative counts.
    assert!(NativeBitmap::new(-1, 1, 1, PixelMode::Gray, vec![0]).is_none());
    assert!(NativeBitmap::new(1, -1, 1, PixelMode::Gray, vec![0]).is_none());
    // A row wider than the pitch.
    assert!(NativeBitmap::new(1, 2, 1, PixelMode::Gray, vec![0, 0]).is_none());
    assert!(NativeBitmap::new(1, 9, 1, PixelMode::Mono, vec![0, 0]).is_none());
    assert!(NativeBitmap::new(1, 1, 3, PixelMode::Bgra, vec![0, 0, 0]).is_none());
    // A subpixel row that ends inside a pixel.
    assert!(NativeBitmap::new(1, 4, 4, PixelMode::Lcd, vec![0, 0, 0, 0]).is_none());
    // A buffer that ends before the last row.
    assert!(NativeBitmap::new(2, 2, 2, PixelMode::Gray, vec![0, 0, 0]).is_none());
    // The same parts with enough bytes.
    assert!(NativeBitmap::new(2, 2, 2, PixelMode::Gray, vec![0, 0, 0, 0]).is_some());
}

#[test]
fn bitmap_hands_its_parts_back() {
    let bitmap = NativeBitmap::new(2, 3, -4, PixelMode::Gray, vec![0; 8]).unwrap();
    assert_eq!(bitmap.rows(), 2);
    assert_eq!(bitmap.width(), 3);
    assert_eq!(bitmap.pitch(), 4);
    assert_eq!(bitmap.pixel_mode(), PixelMode::Gray);
    assert_eq!(bitmap.buffer(), &vec![0; 8]);
}

use std::io::Cursor;

use image::{DynamicImage, GenericImageView, ImageFormat};
use webp2jpg::convert::{convert_bytes, ConvertError};
use webp2jpg::crop::crop_rect;

/// Encode a plain RGB image of the given size as lossless WebP bytes.
fn webp_bytes(w: u32, h: u32) -> Vec<u8> {
    let img = DynamicImage::new_rgb8(w, h);
    let mut buf = Cursor::new(Vec::new());
    img.write_to(&mut buf, ImageFormat::WebP).unwrap();
    buf.into_inner()
}

#[test]
fn landscape_with_crop_becomes_square() {
    let input = webp_bytes(800, 600);
    let (jpeg, w, h) = convert_bytes(&input, true).unwrap();
    assert_eq!((w, h), (600, 600));
    assert_eq!(image::guess_format(&jpeg).unwrap(), ImageFormat::Jpeg);
    let decoded = image::load_from_memory(&jpeg).unwrap();
    assert_eq!(decoded.dimensions(), (600, 600));
}

#[test]
fn portrait_with_crop_keeps_dimensions() {
    let input = webp_bytes(600, 800);
    let (jpeg, w, h) = convert_bytes(&input, true).unwrap();
    assert_eq!((w, h), (600, 800));
    let decoded = image::load_from_memory(&jpeg).unwrap();
    assert_eq!(decoded.dimensions(), (600, 800));
}

#[test]
fn square_with_crop_keeps_dimensions() {
    let input = webp_bytes(500, 500);
    let (jpeg, w, h) = convert_bytes(&input, true).unwrap();
    assert_eq!((w, h), (500, 500));
    let decoded = image::load_from_memory(&jpeg).unwrap();
    assert_eq!(decoded.dimensions(), (500, 500));
}

#[test]
fn landscape_without_crop_keeps_dimensions() {
    let input = webp_bytes(800, 600);
    let (jpeg, w, h) = convert_bytes(&input, false).unwrap();
    assert_eq!((w, h), (800, 600));
    let decoded = image::load_from_memory(&jpeg).unwrap();
    assert_eq!(decoded.dimensions(), (800, 600));
}

#[test]
fn garbage_input_fails_with_decode_error() {
    let input = vec![0u8, 1, 2, 3, 4, 5, 6, 7, 8, 9];
    assert_eq!(convert_bytes(&input, true), Err(ConvertError::Decode));
}

#[test]
fn truncated_webp_fails_with_decode_error() {
    let whole = webp_bytes(64, 64);
    let truncated = whole[..whole.len() / 2].to_vec();
    assert_eq!(convert_bytes(&truncated, false), Err(ConvertError::Decode));
}

#[test]
fn crop_rect_centers_landscape() {
    assert_eq!(crop_rect(800, 600, true), Some((100, 0, 600, 600)));
    assert_eq!(crop_rect(801, 600, true), Some((100, 0, 600, 600)));
}

#[test]
fn crop_rect_skips_portrait_and_square() {
    assert_eq!(crop_rect(600, 800, true), None);
    assert_eq!(crop_rect(500, 500, true), None);
}

#[test]
fn crop_rect_skips_when_disabled() {
    assert_eq!(crop_rect(800, 600, false), None);
}

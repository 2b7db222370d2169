use base64::Engine;
use screenshot_ocr::preprocess::{prepare, target_dimensions, PreprocessError};

/// Encode a small gradient picture as PNG bytes.
fn png_bytes(width: u32, height: u32) -> Vec<u8> {
    let mut img = image::RgbImage::new(width, height);
    for y in 0..height {
        for x in 0..width {
            let r = (x * 255 / width.max(1)) as u8;
            let g = (y * 255 / height.max(1)) as u8;
            img.put_pixel(x, y, image::Rgb([r, g, 128]));
        }
    }
    let mut buf = Vec::new();
    image::DynamicImage::ImageRgb8(img)
        .write_to(&mut std::io::Cursor::new(&mut buf), image::ImageFormat::Png)
        .unwrap();
    buf
}

/// Base64-decode a payload and decode the JPEG inside it.
fn decode_payload(payload: &str) -> image::DynamicImage {
    let jpeg = base64::engine::general_purpose::STANDARD
        .decode(payload)
        .unwrap();
    image::load_from_memory(&jpeg).unwrap()
}

#[test]
fn small_image_keeps_dimensions() {
    let raw = png_bytes(10, 8);
    let payload = prepare(&raw, 100, 85).unwrap();
    let img = decode_payload(&payload);
    assert_eq!(img.width(), 10);
    assert_eq!(img.height(), 8);
}

#[test]
fn image_at_bound_keeps_dimensions() {
    let raw = png_bytes(100, 60);
    let payload = prepare(&raw, 100, 85).unwrap();
    let img = decode_payload(&payload);
    assert_eq!(img.width(), 100);
    assert_eq!(img.height(), 60);
}

#[test]
fn large_image_lands_on_bound() {
    let raw = png_bytes(300, 200);
    let payload = prepare(&raw, 100, 85).unwrap();
    let img = decode_payload(&payload);
    assert_eq!(img.width(), 100);
    assert_eq!(img.height(), 67);
}

#[test]
fn portrait_image_lands_on_bound() {
    let raw = png_bytes(200, 300);
    let payload = prepare(&raw, 100, 85).unwrap();
    let img = decode_payload(&payload);
    assert_eq!(img.width(), 67);
    assert_eq!(img.height(), 100);
}

#[test]
fn round_trip_is_valid_jpeg() {
    let raw = png_bytes(40, 30);
    let payload = prepare(&raw, 100, 85).unwrap();
    let jpeg = base64::engine::general_purpose::STANDARD
        .decode(payload.as_bytes())
        .unwrap();
    let guessed = image::guess_format(&jpeg).unwrap();
    assert_eq!(guessed, image::ImageFormat::Jpeg);
    let img = image::load_from_memory(&jpeg).unwrap();
    assert_eq!((img.width(), img.height()), (40, 30));
}

#[test]
fn target_dimensions_round_to_exact_values() {
    assert_eq!(target_dimensions(4000, 3000, 1920), (1920, 1440));
    assert_eq!(target_dimensions(3000, 4000, 1920), (1440, 1920));
    assert_eq!(target_dimensions(300, 200, 100), (100, 67));
}

#[test]
fn extreme_aspect_clamps_to_one_pixel() {
    assert_eq!(target_dimensions(1, 10000, 100), (1, 100));
    assert_eq!(target_dimensions(10000, 1, 100), (100, 1));
}

#[test]
fn empty_input_is_its_own_error() {
    let raw: Vec<u8> = Vec::new();
    assert_eq!(prepare(&raw, 1920, 85), Err(PreprocessError::EmptyInput));
}

#[test]
fn malformed_bytes_are_a_decode_error() {
    let raw = vec![0u8, 1, 2, 3, 4, 5, 6, 7];
    assert_eq!(prepare(&raw, 1920, 85), Err(PreprocessError::DecodeError));
    assert_ne!(
        prepare(&Vec::new(), 1920, 85),
        prepare(&raw, 1920, 85)
    );
}

#[test]
fn preparing_twice_is_byte_identical() {
    let raw = png_bytes(120, 90);
    let first = prepare(&raw, 64, 80).unwrap();
    let second = prepare(&raw, 64, 80).unwrap();
    assert_eq!(first, second);
}

#[test]
fn quality_changes_the_payload() {
    let raw = png_bytes(120, 90);
    let low = prepare(&raw, 64, 10).unwrap();
    let high = prepare(&raw, 64, 95).unwrap();
    assert_ne!(low, high);
    assert!(low.len() < high.len());
}

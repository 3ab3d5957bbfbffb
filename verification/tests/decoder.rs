use face_servo::decoder::decode;
use face_servo::decoder::DecodeError;

fn png_bytes(width: u32, height: u32, pixel: [u8; 3]) -> Vec<u8> {
    let img = image::RgbImage::from_pixel(width, height, image::Rgb(pixel));
    let mut buf: Vec<u8> = Vec::new();
    let mut cursor = std::io::Cursor::new(&mut buf);
    img.write_to(&mut cursor, image::ImageFormat::Png).unwrap();
    buf
}

#[test]
fn decode_of_non_image_bytes_fails() {
    let bytes = vec![0u8, 1, 2, 3, 4, 5, 6, 7];
    assert_eq!(decode(&bytes).unwrap_err(), DecodeError::MalformedImage);
}

#[test]
fn decode_of_empty_buffer_fails() {
    let bytes: Vec<u8> = Vec::new();
    assert_eq!(decode(&bytes).unwrap_err(), DecodeError::MalformedImage);
}

#[test]
fn decode_of_truncated_image_fails() {
    let mut bytes = png_bytes(8, 8, [0, 0, 0]);
    bytes.truncate(bytes.len() / 2);
    assert_eq!(decode(&bytes).unwrap_err(), DecodeError::MalformedImage);
}

#[test]
fn decode_keeps_dimensions_and_yields_one_byte_per_pixel() {
    let bytes = png_bytes(3, 2, [200, 10, 10]);
    let img = decode(&bytes).unwrap();
    assert_eq!(img.width, 3);
    assert_eq!(img.height, 2);
    assert_eq!(img.pixels.len(), 6);
}

#[test]
fn decode_converts_to_luminance() {
    let white = decode(&png_bytes(1, 1, [255, 255, 255])).unwrap();
    assert_eq!(white.pixels, vec![255u8]);
    let black = decode(&png_bytes(1, 1, [0, 0, 0])).unwrap();
    assert_eq!(black.pixels, vec![0u8]);
}

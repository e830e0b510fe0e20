//! Tests of preview decoding, against the real JPEG codec.

use gcam::error::AppError;
use gcam::preview::decode_image;

#[test]
fn a_real_jpeg_frame_decodes_to_its_dimensions() {
    // encode a small frame with the same codec family a camera would use
    let mut rgb = image::RgbImage::new(8, 6);
    for (x, y, p) in rgb.enumerate_pixels_mut() {
        *p = image::Rgb([(x * 30) as u8, (y * 40) as u8, 128]);
    }
    let mut bytes: Vec<u8> = Vec::new();
    image::DynamicImage::ImageRgb8(rgb)
        .write_to(&mut std::io::Cursor::new(&mut bytes), image::ImageFormat::Jpeg)
        .expect("encoding must succeed");

    let img = decode_image(&bytes).expect("a valid frame must decode");
    assert_eq!((img.width, img.height), (8, 6));
    assert_eq!(img.rgba.len(), 4 * 8 * 6);
    // every pixel is fully opaque after RGBA expansion
    assert!(img.rgba.chunks(4).all(|px| px[3] == 255));
}

#[test]
fn malformed_bytes_are_a_decode_error() {
    let r = decode_image(&[0x00, 0x01, 0x02, 0x03]);
    match r {
        Err(AppError::ImageError(_)) => {}
        _ => panic!("garbage must fail as a decode error"),
    }
}

#[test]
fn an_empty_frame_is_a_decode_error() {
    assert!(matches!(decode_image(&[]), Err(AppError::ImageError(_))));
}

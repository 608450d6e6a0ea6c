//! The image decoder behind sprite textures.

use pixel_zero::texture::{decode_image, TextureError};

/// A 1x1 opaque red PNG.
fn red_pixel_png() -> Vec<u8> {
    vec![
        137, 80, 78, 71, 13, 10, 26, 10, 0, 0, 0, 13, 73, 72, 68, 82, 0, 0, 0, 1, 0, 0, 0, 1, 8,
        6, 0, 0, 0, 31, 21, 196, 137, 0, 0, 0, 13, 73, 68, 65, 84, 120, 156, 99, 248, 207, 192,
        240, 31, 0, 5, 0, 1, 255, 137, 153, 61, 29, 0, 0, 0, 0, 73, 69, 78, 68, 174, 66, 96, 130,
    ]
}

#[test]
fn decodes_a_png_into_rgba_pixels() {
    let img = decode_image(&red_pixel_png()).unwrap();
    assert_eq!((img.width, img.height), (1, 1));
    assert_eq!(img.pixels, vec![255, 0, 0, 255]);
}

#[test]
fn rejects_bytes_that_are_no_image() {
    let junk = vec![1u8, 2, 3, 4, 5, 6, 7, 8];
    match decode_image(&junk) {
        Err(TextureError::Image(_)) => {}
        other => panic!("expected an image error, got {other:?}"),
    }
}

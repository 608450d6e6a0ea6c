//! Image decoding for sprite textures. Decoding bytes to pixels is pure
//! computation done by the `image` crate; uploading the pixels to the GPU
//! is the shell's work.

use vstd::prelude::*;

verus! {

/// Texture creation failures.
#[derive(Clone, Debug, PartialEq, Eq)]
pub enum TextureError {
    /// The GPU rejected the texture, with its message.
    OpenGL(String),
    /// The image bytes could not be read.
    IO,
    /// The image bytes did not decode, with the decoder's message.
    Image(String),
}

/// A decoded image: tightly packed 8-bit RGBA rows, top to bottom.
#[derive(Clone, Debug)]
pub struct DecodedImage {
    pub width: u32,
    pub height: u32,
    pub pixels: Vec<u8>,
}

/// What the image decoder yields for the given encoded bytes: the RGBA
/// pixels with the dimensions, or nothing when the bytes do not decode.
/// Decoding is a function of the bytes alone.
pub uninterp spec fn decoded_rgba(data: Seq<u8>) -> Option<(Seq<u8>, u32, u32)>;

#[verifier::external_type_specification]
#[verifier::external_body]
pub struct ExImageError(image::ImageError);

/// Relies on `image::load_from_memory` and `DynamicImage::to_rgba8`:
/// decoding is deterministic in the bytes, and the RGBA buffer holds
/// exactly width x height pixels of four bytes.
#[verifier::external_body]
fn decode_rgba_raw(data: &Vec<u8>) -> (r: Result<DecodedImage, image::ImageError>)
    ensures
        match r {
            Ok(img) => decoded_rgba(data@) == Some((img.pixels@, img.width, img.height))
                && img.pixels@.len() == 4 * img.width * img.height,
            Err(_) => decoded_rgba(data@) is None,
        },
{
    let img = image::load_from_memory(data.as_slice())?;
    let rgba = img.to_rgba8();
    let width = rgba.width();
    let height = rgba.height();
    Ok(DecodedImage { width, height, pixels: rgba.into_raw() })
}

/// Relies on `image::ImageError`'s display implementation for the
/// message text.
#[verifier::external_body]
fn image_error_message(e: &image::ImageError) -> String {
    format!("{e}")
}

/// Decodes encoded image bytes into RGBA pixels: exactly what the decoder
/// yields for these bytes, or an `Image` error when they do not decode.
pub fn decode_image(data: &Vec<u8>) -> (r: Result<DecodedImage, TextureError>)
    ensures
        match r {
            Ok(img) => decoded_rgba(data@) == Some((img.pixels@, img.width, img.height))
                && img.pixels@.len() == 4 * img.width * img.height,
            Err(e) => decoded_rgba(data@) is None && e is Image,
        },
{
    match decode_rgba_raw(data) {
        Ok(img) => Ok(img),
        Err(e) => Err(TextureError::Image(image_error_message(&e))),
    }
}

} // verus!

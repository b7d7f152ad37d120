//! The window icon: an image file decoded into RGBA pixels.

use vstd::prelude::*;
use image::ImageError;

verus! {

/// The error of the image library.
#[verifier::external_type_specification]
#[verifier::external_body]
pub struct ExImageError(ImageError);

/// What decoding `bytes` as an image file gives, its format told by its
/// first bytes against the formats that the decoder knows: its pixels as
/// RGBA bytes, row after row, with its width and height; `None` when
/// `bytes` is no image that the decoder reads.
pub uninterp spec fn decoded_rgba(bytes: Seq<u8>) -> Option<(Seq<u8>, u32, u32)>;

/// Decodes an image file held in memory into RGBA pixels: its format is
/// guessed from its first bytes among the built-in formats
/// (`image::guess_format`), it is decoded in that format with the default
/// limits (`image::load_from_memory_with_format`), and
/// `DynamicImage::into_rgba8` gives the buffer whose `dimensions` and
/// `into_raw` are returned. Neither call consults the hooks that a program
/// may register with the image library. Stated: the result is the decoding
/// of `bytes` (named by `decoded_rgba`), and the buffer holds at least four
/// bytes per pixel, as every `ImageBuffer` does. The decoding itself is not
/// stated.
#[verifier::external_body]
fn decode_rgba8(bytes: &[u8]) -> (r: Result<(Vec<u8>, u32, u32), ImageError>)
    ensures
        match r {
            Ok((rgba, w, h)) => decoded_rgba(bytes@) == Some((rgba@, w, h)) && rgba@.len() >= w * h * 4,
            Err(_) => decoded_rgba(bytes@) is None,
        },
{
    let format = match image::guess_format(bytes) {
        Ok(f) => f,
        Err(e) => return Err(e),
    };
    match image::load_from_memory_with_format(bytes, format) {
        Ok(img) => {
            let rgba = img.into_rgba8();
            let (w, h) = rgba.dimensions();
            Ok((rgba.into_raw(), w, h))
        },
        Err(e) => Err(e),
    }
}

/// An icon's pixels: RGBA bytes row after row, and its size.
pub struct IconRgba {
    pub rgba: Vec<u8>,
    pub width: u32,
    pub height: u32,
}

/// Why an icon could not be read.
#[derive(Clone, Copy, Debug, PartialEq, Eq, Structural)]
pub enum IconError {
    /// The bytes are no image that the decoder reads.
    NotAnImage,
}

/// Decodes the icon file `bytes` into RGBA pixels.
pub fn decode_icon(bytes: &[u8]) -> (r: Result<IconRgba, IconError>)
    ensures
        match r {
            Ok(icon) => decoded_rgba(bytes@) == Some((icon.rgba@, icon.width, icon.height))
                && icon.rgba@.len() >= icon.width * icon.height * 4,
            Err(e) => decoded_rgba(bytes@) is None && e == IconError::NotAnImage,
        },
{
    match decode_rgba8(bytes) {
        Ok((rgba, width, height)) => Ok(IconRgba { rgba, width, height }),
        Err(_) => Err(IconError::NotAnImage),
    }
}

} // verus!

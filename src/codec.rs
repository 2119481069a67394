use vstd::prelude::*;

use crate::pixels::{PixelBuffer, Pixels};

verus! {

/// The image codec's error, carried opaquely.
#[verifier::external_type_specification]
#[verifier::external_body]
pub struct ExImageError(image::ImageError);

/// Width, height and RGBA8 bytes that the image codec decodes from an
/// encoded file, or `None` where it recognises no image in it.
pub uninterp spec fn decoded_rgba8(bytes: Seq<u8>) -> Option<(u32, u32, Seq<u8>)>;

/// Relies on `image::load_from_memory`, which sniffs the format from the
/// bytes and decodes them, and on `DynamicImage::to_rgba8`, which converts
/// the result into a freshly allocated buffer of exactly four bytes per pixel
/// (`ImageBuffer::new`), handed out unchanged by `into_raw`.
#[verifier::external_body]
fn decode_rgba8(bytes: &[u8]) -> (r: Result<(u32, u32, Vec<u8>), image::ImageError>)
    ensures
        match r {
            Ok((w, h, px)) => {
                &&& decoded_rgba8(bytes@) == Some((w, h, px@))
                &&& px@.len() == w * h * 4
            },
            Err(_) => decoded_rgba8(bytes@) is None,
        },
{
    match image::load_from_memory(bytes) {
        Ok(img) => {
            let rgba = img.to_rgba8();
            Ok((rgba.width(), rgba.height(), rgba.into_raw()))
        },
        Err(e) => Err(e),
    }
}

/// Why an image could not be loaded.
#[derive(Clone, Copy, Debug, PartialEq, Eq, Structural)]
pub enum DecodeError {
    /// The file could not be read.
    Unreadable,
    /// The file holds no image in a format that the codec recognises.
    Unrecognized,
}

/// The pixel buffer that decoding `bytes` gives, if any.
pub open spec fn decode_spec(bytes: Seq<u8>) -> Option<Pixels> {
    match decoded_rgba8(bytes) {
        Some((w, h, px)) => Some(Pixels { width: w as nat, height: h as nat, rgba: px }),
        None => None,
    }
}

/// What `PixelBuffer::decode` returns on `bytes`.
pub open spec fn decode_post(bytes: Seq<u8>, r: Result<PixelBuffer, DecodeError>) -> bool {
    match r {
        Ok(b) => b.wf() && decode_spec(bytes) == Some(b@),
        Err(e) => decode_spec(bytes) is None && e == DecodeError::Unrecognized,
    }
}

impl PixelBuffer {
    /// Decodes an encoded image file (PNG, JPEG, GIF, ...) into RGBA8 pixels
    /// of the image's own dimensions.
    pub fn decode(bytes: &[u8]) -> (r: Result<PixelBuffer, DecodeError>)
        ensures
            decode_post(bytes@, r),
    {
        match decode_rgba8(bytes) {
            Ok((w, h, px)) => match PixelBuffer::from_rgba(w, h, px) {
                Some(b) => Ok(b),
                None => Err(DecodeError::Unrecognized),
            },
            Err(_) => Err(DecodeError::Unrecognized),
        }
    }
}

} // verus!

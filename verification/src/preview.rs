//! Decoding of preview frames.

use vstd::prelude::*;

use crate::error::AppError;
use crate::messages::PreviewImage;

verus! {

/// What the JPEG decoder makes of a byte sequence: `None` when the bytes are
/// no decodable frame, else width, height and the tightly packed RGBA bytes.
/// A function of the bytes alone.
pub uninterp spec fn jpeg_decode(data: Seq<u8>) -> Option<(nat, nat, Seq<u8>)>;

/// Relies on image's `JpegDecoder`, `DynamicImage::from_decoder` and
/// `to_rgba8`: whether decoding succeeds, and what it yields, depend on the
/// frame bytes alone, and an RGBA buffer holds exactly four bytes per pixel.
#[verifier::external_body]
pub fn decode_image(data: &[u8]) -> (r: Result<PreviewImage, AppError>)
    ensures
        r is Ok <==> jpeg_decode(data@) is Some,
        r matches Ok(img) ==> {
            &&& img.wf()
            &&& (img.width as nat, img.height as nat, img.rgba@) == jpeg_decode(data@)->Some_0
        },
        r matches Err(e) ==> e is ImageError,
{
    let decoder = match image::codecs::jpeg::JpegDecoder::new(std::io::Cursor::new(data)) {
        Ok(d) => d,
        Err(e) => return Err(AppError::ImageError(e.to_string())),
    };
    let decoded = match image::DynamicImage::from_decoder(decoder) {
        Ok(i) => i,
        Err(e) => return Err(AppError::ImageError(e.to_string())),
    };
    let rgba = decoded.to_rgba8();
    let width = rgba.width() as usize;
    let height = rgba.height() as usize;
    Ok(PreviewImage { width, height, rgba: rgba.into_raw() })
}

} // verus!

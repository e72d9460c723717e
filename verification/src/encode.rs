//! The image encoder adapter: RGBA pixels in, PNG bytes out.
//!
//! The encoding itself is done by the `image` crate; the library pins down
//! exactly when encoding succeeds and names its result, so that everything
//! downstream of the encoder is a pure function of the pixel buffer.

use vstd::prelude::*;
use crate::error::{Error, InnerError, is_error_of};
use crate::extract::MAX_PLANE_DIM;

verus! {

/// The PNG stream the encoder produces for a top-down RGBA image of the
/// given size: a pure function of the pixels alone.
pub uninterp spec fn png_of(width: u32, height: u32, rgba: Seq<u8>) -> Seq<u8>;

/// Relies on `image::ImageBuffer::from_raw` and `ImageBuffer::write_to` with
/// the PNG format: `from_raw` accepts a container of exactly
/// `4 * width * height` bytes, and the PNG encoder accepts any RGBA8 image
/// with nonzero dimensions, writes deterministically to an in-memory cursor,
/// and always begins the stream with the 8-byte PNG signature, so the result
/// is a nonempty function of the arguments alone.
#[verifier::external_body]
fn encode_rgba_to_png(width: u32, height: u32, rgba: &Vec<u8>) -> (r: Vec<u8>)
    requires
        1 <= width <= MAX_PLANE_DIM,
        1 <= height <= MAX_PLANE_DIM,
        rgba@.len() == 4 * (width as int) * (height as int),
    ensures
        r@ == png_of(width, height, rgba@),
        r@.len() > 0,
{
    let image: image::RgbaImage = match image::ImageBuffer::from_raw(width, height, rgba.clone()) {
        Some(image) => image,
        None => return Vec::new(),
    };
    let mut bytes: Vec<u8> = Vec::new();
    let mut cursor = std::io::Cursor::new(&mut bytes);
    match image.write_to(&mut cursor, image::ImageFormat::Png) {
        Ok(()) => bytes,
        Err(_) => Vec::new(),
    }
}

/// Encode a top-down RGBA image as PNG.  Succeeds exactly on nonzero
/// dimensions; a degenerate image is the one thing the encoder rejects.
pub fn encode_png(width: u32, height: u32, rgba: &Vec<u8>) -> (r: Result<Vec<u8>, Error>)
    requires
        width <= MAX_PLANE_DIM,
        height <= MAX_PLANE_DIM,
        rgba@.len() == 4 * (width as int) * (height as int),
    ensures
        r is Ok <==> width > 0 && height > 0,
        r matches Ok(png) ==> png@ == png_of(width, height, rgba@) && png@.len() > 0,
        r matches Err(e) ==> is_error_of(e, InnerError::EncodingFailure),
{
    if width == 0 || height == 0 {
        return Err(Error::from_kind(InnerError::EncodingFailure));
    }
    Ok(encode_rgba_to_png(width, height, rgba))
}

} // verus!

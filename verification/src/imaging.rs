//! Normalising an attached image to PNG, behind a named, trusted entry point
//! of the `image` crate, and turning it into base64 for embedding.

use vstd::prelude::*;
use vstd::string::*;

use crate::encoding::{base64_encode, base64_of, MAX_BASE64_INPUT_LEN};

verus! {

/// Whether the `image` crate can decode this byte sequence as an image.
/// Uninterpreted: a pure function of the bytes.
pub uninterp spec fn image_decodable(bytes: Seq<u8>) -> bool;

/// The PNG re-encoding of a decodable image: decode, then write back out as
/// PNG. Uninterpreted: a pure function of the bytes, computed by the `image`
/// crate.
pub uninterp spec fn png_reencode_of(bytes: Seq<u8>) -> Seq<u8>;

/// Relies on `image::load_from_memory` and `image::DynamicImage::write_to`
/// with the PNG format: decoding succeeds exactly for well-formed image data,
/// and the decode/re-encode pipeline is a pure function of the input bytes.
#[verifier::external_body]
pub(crate) fn reencode_png(bytes: &Vec<u8>) -> (r: Result<Vec<u8>, String>)
    ensures
        r is Ok <==> image_decodable(bytes@),
        r is Ok ==> r->Ok_0@ == png_reencode_of(bytes@),
{
    let image = image::load_from_memory(bytes).map_err(|e| e.to_string())?;
    let mut buf = Vec::new();
    image
        .write_to(&mut std::io::Cursor::new(&mut buf), image::ImageFormat::Png)
        .map_err(|e| e.to_string())?;
    Ok(buf)
}

/// Decode an in-memory image, re-encode it as PNG, and base64-encode the
/// result. Fails exactly when the bytes are not a decodable image (or the
/// re-encoded PNG is absurdly large), and then reports why.
pub fn image_to_base64(bytes: &Vec<u8>) -> (r: Result<String, String>)
    ensures
        r is Ok <==> (image_decodable(bytes@) && png_reencode_of(bytes@).len()
            <= MAX_BASE64_INPUT_LEN),
        r is Ok ==> r->Ok_0@ == base64_of(png_reencode_of(bytes@)),
{
    match reencode_png(bytes) {
        Ok(png) => {
            if png.len() <= MAX_BASE64_INPUT_LEN {
                Ok(base64_encode(&png))
            } else {
                Err(String::from_str("re-encoded PNG too large to embed"))
            }
        },
        Err(e) => Err(e),
    }
}

} // verus!

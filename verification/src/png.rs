//! The image of the clipboard as a PNG file's bytes.

use vstd::prelude::*;
use crate::error::{CycleError, CycleErrorView};

verus! {

/// `image::DynamicImage`, a decoded image: it is carried from the decoder to
/// the encoder, and nothing is known of what it holds.
#[verifier::external_type_specification]
#[verifier::external_body]
pub struct ExDynamicImage(image::DynamicImage);

/// `image::ImageError`, the error of the decoder and of the encoder: only
/// that there is one is looked at.
#[verifier::external_type_specification]
#[verifier::external_body]
pub struct ExImageError(image::ImageError);

/// `image::load_from_memory`: it guesses the format of the bytes and decodes
/// them. Besides the bytes it consults the format hooks that the process has
/// registered with the image crate, so its result is no function of the bytes
/// alone: nothing is claimed of the image or of the error.
#[verifier::external_body]
fn decode(bytes: &Vec<u8>) -> (r: Result<image::DynamicImage, image::ImageError>) {
    image::load_from_memory(bytes)
}

/// Whether the bytes begin as every PNG file does: with the eight bytes of the
/// PNG signature.
pub open spec fn is_png(bytes: Seq<u8>) -> bool {
    bytes.len() >= 8 && bytes.subrange(0, 8) == seq![
        137u8, 80u8, 78u8, 71u8, 13u8, 10u8, 26u8, 10u8,
    ]
}

/// `image::DynamicImage::write_to` with the PNG format, into memory that is
/// empty before. Where it succeeds, the bytes begin with the PNG signature,
/// which the encoder writes before anything else. No more is claimed of the
/// bytes, and nothing of the error.
#[verifier::external_body]
fn encode_png(picture: &image::DynamicImage) -> (r: Result<Vec<u8>, image::ImageError>)
    ensures
        r is Ok ==> is_png(r->Ok_0@),
{
    let mut out = std::io::Cursor::new(Vec::new());
    match picture.write_to(&mut out, image::ImageFormat::Png) {
        Ok(()) => Ok(out.into_inner()),
        Err(e) => Err(e),
    }
}

/// What comes of a bitmap, given how its two steps went: `ImageDecodeFailed`
/// where it could not be decoded, whatever is said of the encoding;
/// `ImageEncodeFailed` where it was decoded and the encoder gave no bytes; else
/// the bytes that the encoder gave.
pub open spec fn spec_png_outcome(decoded: bool, encoded: Option<Seq<u8>>) -> Result<
    Seq<u8>,
    CycleErrorView,
> {
    if !decoded {
        Err(CycleErrorView::ImageDecodeFailed)
    } else {
        match encoded {
            Some(bytes) => Ok(bytes),
            None => Err(CycleErrorView::ImageEncodeFailed),
        }
    }
}

/// The result of an encoding as plain values.
pub open spec fn png_view(r: Result<Vec<u8>, CycleError>) -> Result<Seq<u8>, CycleErrorView> {
    match r {
        Ok(bytes) => Ok(bytes@),
        Err(error) => Err(error@),
    }
}

/// The bytes of an encoding as plain values.
pub open spec fn bytes_view(encoded: Option<Vec<u8>>) -> Option<Seq<u8>> {
    match encoded {
        Some(bytes) => Some(bytes@),
        None => None,
    }
}

/// What comes of a bitmap, given whether it was decoded and what the encoder
/// gave.
pub fn png_outcome(decoded: bool, encoded: Option<Vec<u8>>) -> (r: Result<Vec<u8>, CycleError>)
    ensures
        png_view(r) == spec_png_outcome(decoded, bytes_view(encoded)),
{
    if !decoded {
        Err(CycleError::ImageDecodeFailed)
    } else {
        match encoded {
            Some(bytes) => Ok(bytes),
            None => Err(CycleError::ImageEncodeFailed),
        }
    }
}

/// The bitmap as the bytes of a PNG file: the image crate decodes the bitmap
/// and encodes the image, and `png_outcome` says what comes of the two steps.
/// So it fails with `ImageDecodeFailed` where the bitmap cannot be read and
/// with `ImageEncodeFailed` where the image cannot be written as PNG, and in no
/// other way; and where it succeeds, the bytes begin with the PNG signature.
pub fn png_from_bitmap(bitmap: &Vec<u8>) -> (r: Result<Vec<u8>, CycleError>)
    ensures
        r is Ok ==> is_png(r->Ok_0@),
        r is Err ==> r->Err_0@ == CycleErrorView::ImageDecodeFailed || r->Err_0@
            == CycleErrorView::ImageEncodeFailed,
        exists|decoded: bool, encoded: Option<Seq<u8>>|
            png_view(r) == #[trigger] spec_png_outcome(decoded, encoded),
{
    let r = match decode(bitmap) {
        Ok(picture) => match encode_png(&picture) {
            Ok(bytes) => png_outcome(true, Some(bytes)),
            Err(_) => png_outcome(true, None),
        },
        Err(_) => png_outcome(false, None),
    };
    proof {
        if r is Ok {
            assert(png_view(r) == spec_png_outcome(true, Some(r->Ok_0@)));
        } else if r->Err_0@ == CycleErrorView::ImageDecodeFailed {
            assert(png_view(r) == spec_png_outcome(false, None));
        } else {
            assert(png_view(r) == spec_png_outcome(true, None));
        }
    }
    r
}

} // verus!

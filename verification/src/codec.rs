//! The image codec: what the pipeline takes on trust from the `image` crate.

use vstd::prelude::*;

verus! {

/// `image::DynamicImage`: a decoded bitmap. The pipeline hands it on and
/// never looks inside.
#[verifier::external_type_specification]
#[verifier::external_body]
pub struct ExDynamicImage(image::DynamicImage);

/// `image::ImageError`: the codec's account of a failed decode or encode.
#[verifier::external_type_specification]
#[verifier::external_body]
pub struct ExImageError(image::ImageError);

/// Whether `image::load_from_memory` decodes a byte string, and to which
/// image. The error that it returns on other bytes has no name: it may
/// differ from one call to the next.
pub uninterp spec fn decoded_image(bytes: Seq<u8>) -> Option<image::DynamicImage>;

/// What `image::DynamicImage::write_to` writes for an image when asked for
/// PNG, or the error it returns.
pub uninterp spec fn png_encoding(img: image::DynamicImage) -> Result<Seq<u8>, image::ImageError>;

/// `image::load_from_memory` guesses the format from the leading bytes and
/// decodes with the matching decoder, of those that this crate builds
/// `image` with: PNG, GIF and BMP. Taken on trust: whether it returns an
/// image, and which, depends on the bytes alone. Which bytes decode, and
/// to what, is not stated, nor is anything about the error.
pub assume_specification[ image::load_from_memory ](buffer: &[u8]) -> (r: image::ImageResult<
    image::DynamicImage,
>)
    ensures
        match decoded_image(buffer@) {
            Some(img) => r == Ok::<image::DynamicImage, image::ImageError>(img),
            None => r is Err,
        },
;

/// Calls `image::DynamicImage::write_to` on an empty in-memory buffer with
/// `image::ImageOutputFormat::Png` and returns what was written. Taken on
/// trust: it returns, and what it returns, bytes or error, depends on the
/// image alone. Which images encode, and to what, is not stated.
#[verifier::external_body]
pub(crate) fn write_png(img: &image::DynamicImage) -> (r: Result<Vec<u8>, image::ImageError>)
    ensures
        match png_encoding(*img) {
            Ok(bytes) => r is Ok && r->Ok_0@ == bytes,
            Err(e) => r == Err::<Vec<u8>, image::ImageError>(e),
        },
{
    let mut out = std::io::Cursor::new(Vec::new());
    img.write_to(&mut out, image::ImageOutputFormat::Png)?;
    Ok(out.into_inner())
}

} // verus!

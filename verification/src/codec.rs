//! Trusted boundary to the external codec library.
//!
//! Decoding, pixel-format conversion, resampling and encoding are performed
//! by the `image` and `webp` crates. Each operation is a pure function of its
//! arguments; the spec functions below name those results so that contracts
//! elsewhere in the crate can speak about them exactly.

use vstd::prelude::*;

verus! {

#[verifier::external_type_specification]
#[verifier::external_body]
pub struct ExDynamicImage(image::DynamicImage);

/// The image decoded from `bytes`, or `None` when no supported codec accepts
/// those bytes.
pub uninterp spec fn decoded_image(bytes: Seq<u8>) -> Option<image::DynamicImage>;

/// Pixel dimensions (width, height) of a decoded image.
pub uninterp spec fn image_dims(img: image::DynamicImage) -> (u32, u32);

/// `img` converted to the 8-bit RGB pixel model (alpha and metadata stripped).
pub uninterp spec fn rgb8_image(img: image::DynamicImage) -> image::DynamicImage;

/// `img` resampled to exactly `w` by `h` pixels with the triangle filter.
pub uninterp spec fn resized_image(img: image::DynamicImage, w: u32, h: u32) -> image::DynamicImage;

/// JPEG encoding of `img` at `quality`, or `None` when encoding fails.
pub uninterp spec fn jpeg_encoding(img: image::DynamicImage, quality: u8) -> Option<Seq<u8>>;

/// PNG encoding of `img` at best compression with adaptive filtering, or
/// `None` when encoding fails.
pub uninterp spec fn png_encoding(img: image::DynamicImage) -> Option<Seq<u8>>;

/// Lossless WebP encoding of `img`, or `None` when the encoder does not take
/// the image's pixel model.
pub uninterp spec fn webp_lossless_encoding(img: image::DynamicImage) -> Option<Seq<u8>>;

/// Largest width or height the WebP container can hold; the encoder rejects
/// anything beyond it.
pub const WEBP_MAX_DIMENSION: u32 = 16383;

/// Relies on `image::load_from_memory`: decoding is a pure function of the
/// input bytes, and fails exactly on inputs no supported codec accepts.
#[verifier::external_body]
pub(crate) fn decode_image(bytes: &Vec<u8>) -> (r: Result<image::DynamicImage, String>)
    ensures
        match r {
            Ok(img) => decoded_image(bytes@) == Some(img),
            Err(_) => decoded_image(bytes@) is None,
        },
{
    image::load_from_memory(bytes.as_slice()).map_err(|e| e.to_string())
}

/// Relies on `GenericImageView::dimensions` for `DynamicImage`: returns the
/// width and height of the pixel buffer.
#[verifier::external_body]
pub(crate) fn image_dimensions(img: &image::DynamicImage) -> (r: (u32, u32))
    ensures
        r == image_dims(*img),
{
    image::GenericImageView::dimensions(img)
}

/// Relies on `DynamicImage::to_rgb8`: converts to 8-bit RGB without changing
/// the dimensions.
#[verifier::external_body]
pub(crate) fn to_rgb8(img: &image::DynamicImage) -> (r: image::DynamicImage)
    ensures
        r == rgb8_image(*img),
        image_dims(r) == image_dims(*img),
{
    image::DynamicImage::ImageRgb8(img.to_rgb8())
}

/// Relies on `DynamicImage::resize_exact`: returns a new image whose
/// dimensions are exactly the requested ones.
#[verifier::external_body]
pub(crate) fn resize_image(img: &image::DynamicImage, w: u32, h: u32) -> (r: image::DynamicImage)
    requires
        w >= 1,
        h >= 1,
    ensures
        r == resized_image(*img, w, h),
        image_dims(r) == (w, h),
{
    img.resize_exact(w, h, image::imageops::FilterType::Triangle)
}

/// Relies on `JpegEncoder::new_with_quality` and
/// `DynamicImage::write_with_encoder`: encodes to an in-memory buffer.
#[verifier::external_body]
pub(crate) fn encode_jpeg(img: &image::DynamicImage, quality: u8) -> (r: Result<Vec<u8>, String>)
    ensures
        match r {
            Ok(bytes) => jpeg_encoding(*img, quality) == Some(bytes@),
            Err(_) => jpeg_encoding(*img, quality) is None,
        },
{
    let mut buf = std::io::Cursor::new(Vec::new());
    let encoder = image::codecs::jpeg::JpegEncoder::new_with_quality(&mut buf, quality);
    match img.write_with_encoder(encoder) {
        Ok(()) => Ok(buf.into_inner()),
        Err(e) => Err(e.to_string()),
    }
}

/// Relies on `PngEncoder::new_with_quality` (best compression, adaptive
/// filtering) and `DynamicImage::write_with_encoder`: encodes to an in-memory
/// buffer.
#[verifier::external_body]
pub(crate) fn encode_png(img: &image::DynamicImage) -> (r: Result<Vec<u8>, String>)
    ensures
        match r {
            Ok(bytes) => png_encoding(*img) == Some(bytes@),
            Err(_) => png_encoding(*img) is None,
        },
{
    let mut buf = std::io::Cursor::new(Vec::new());
    let encoder = image::codecs::png::PngEncoder::new_with_quality(
        &mut buf,
        image::codecs::png::CompressionType::Best,
        image::codecs::png::FilterType::Adaptive,
    );
    match img.write_with_encoder(encoder) {
        Ok(()) => Ok(buf.into_inner()),
        Err(e) => Err(e.to_string()),
    }
}

/// Relies on `webp::Encoder::from_image` and `webp::Encoder::encode_lossless`:
/// `from_image` accepts exactly the 8-bit RGB and RGBA pixel models, and
/// `encode_lossless` succeeds for those models when both dimensions lie in
/// the range the WebP container can hold (it panics beyond that range, which
/// the precondition rules out).
#[verifier::external_body]
pub(crate) fn encode_webp_lossless(img: &image::DynamicImage) -> (r: Result<Vec<u8>, String>)
    requires
        1 <= image_dims(*img).0 <= WEBP_MAX_DIMENSION,
        1 <= image_dims(*img).1 <= WEBP_MAX_DIMENSION,
    ensures
        match r {
            Ok(bytes) => webp_lossless_encoding(*img) == Some(bytes@),
            Err(_) => webp_lossless_encoding(*img) is None,
        },
{
    let encoder = match webp::Encoder::from_image(img) {
        Ok(e) => e,
        Err(e) => return Err(e.to_string()),
    };
    Ok(encoder.encode_lossless().to_vec())
}

} // verus!

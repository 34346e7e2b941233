//! Pre-flight skip heuristic for JPEG inputs re-encoded to JPEG.
//!
//! The effective quality of a JPEG is estimated from its bytes-per-pixel
//! ratio alone — coarse bands, never an inspection of the file's tables — so
//! the estimate is approximate by design: it can both miss real savings and
//! let pointless work through. When the requested target quality is not
//! meaningfully lower than the estimate, re-encoding is skipped and the file
//! reported unchanged.

use crate::format::OutputFormat;
use vstd::prelude::*;

verus! {

/// How many quality points the target must lie below the estimated source
/// quality before re-encoding is considered worthwhile.
pub const SKIP_QUALITY_MARGIN: u8 = 10;

/// Estimate band for sources above 1.5 bytes per pixel.
pub const ESTIMATE_HIGH: u8 = 90;

/// Estimate band for sources between 1.0 and 1.5 bytes per pixel.
pub const ESTIMATE_MEDIUM_HIGH: u8 = 75;

/// Estimate band for sources between 0.5 and 1.0 bytes per pixel.
pub const ESTIMATE_MEDIUM: u8 = 60;

/// Estimate band for sources below 0.5 bytes per pixel.
pub const ESTIMATE_LOW: u8 = 40;

/// Coarse estimate of a JPEG's effective encoding quality from its file size
/// and pixel dimensions. An image without pixels gives no ratio to go by and
/// is estimated high, so it is handled like any default input.
pub open spec fn spec_estimated_jpeg_quality(file_size: u64, width: u32, height: u32) -> u8 {
    let pixels = width * height;
    if pixels == 0 {
        ESTIMATE_HIGH
    } else if 2 * file_size > 3 * pixels {
        ESTIMATE_HIGH
    } else if file_size >= pixels {
        ESTIMATE_MEDIUM_HIGH
    } else if 2 * file_size >= pixels {
        ESTIMATE_MEDIUM
    } else {
        ESTIMATE_LOW
    }
}

/// Re-encoding is skipped exactly when both sides are JPEG and the requested
/// quality is not more than `margin` points below the estimated source
/// quality.
pub open spec fn spec_should_skip(
    input_is_jpeg: bool,
    format: OutputFormat,
    quality: u8,
    margin: u8,
    estimated: u8,
) -> bool {
    input_is_jpeg && format is Jpeg && quality + margin >= estimated
}

/// Estimate the effective quality of a JPEG of `file_size` bytes and the
/// given pixel dimensions.
pub fn estimated_jpeg_quality(file_size: u64, width: u32, height: u32) -> (q: u8)
    ensures
        q == spec_estimated_jpeg_quality(file_size, width, height),
{
    proof {
        assert((width as int) * (height as int) <= 0xffff_ffff * 0xffff_ffff) by (nonlinear_arith)
            requires
                width <= 0xffff_ffffu32,
                height <= 0xffff_ffffu32,
        ;
    }
    let pixels: u64 = (width as u64) * (height as u64);
    if pixels == 0 {
        ESTIMATE_HIGH
    } else if 2 * (file_size as u128) > 3 * (pixels as u128) {
        ESTIMATE_HIGH
    } else if file_size >= pixels {
        ESTIMATE_MEDIUM_HIGH
    } else if 2 * (file_size as u128) >= pixels as u128 {
        ESTIMATE_MEDIUM
    } else {
        ESTIMATE_LOW
    }
}

/// Decide whether re-encoding should be skipped for an input of `file_size`
/// bytes with the given dimensions, under the requested target format and
/// quality.
pub fn should_skip_reencode(
    input_is_jpeg: bool,
    format: OutputFormat,
    quality: u8,
    margin: u8,
    file_size: u64,
    width: u32,
    height: u32,
) -> (r: bool)
    ensures
        r == spec_should_skip(
            input_is_jpeg,
            format,
            quality,
            margin,
            spec_estimated_jpeg_quality(file_size, width, height),
        ),
{
    if !input_is_jpeg {
        return false;
    }
    if !matches!(format, OutputFormat::Jpeg) {
        return false;
    }
    let estimated = estimated_jpeg_quality(file_size, width, height);
    (quality as u32) + (margin as u32) >= (estimated as u32)
}

} // verus!

//! Format-specific encode plans.
//!
//! The plan is a pure function of the target format, the requested quality,
//! and whether the source is a JPEG: JPEG output always strips alpha and
//! encodes at the requested quality; PNG output uses maximum compression
//! with adaptive filtering, and additionally strips alpha when the source is
//! a JPEG (JPEG-to-PNG re-encoding tends to inflate, so aggressive settings
//! are mandatory there); WebP output always strips alpha and encodes
//! losslessly at quality 100, lossily below it.

use crate::format::OutputFormat;
use vstd::prelude::*;

verus! {

/// One format-specific encode path, with the parameters it needs.
#[derive(Clone, Copy, PartialEq, Eq, Structural, Debug)]
pub enum EncodePlan {
    Jpeg { quality: u8 },
    Png { strip_alpha: bool },
    WebpLossless,
    WebpLossy { quality: u8 },
}

/// The encode plan for a request, as a function of target format, requested
/// quality, and whether the source file is a JPEG.
pub open spec fn spec_encode_plan(
    format: OutputFormat,
    quality: u8,
    input_is_jpeg: bool,
) -> EncodePlan {
    match format {
        OutputFormat::Jpeg => EncodePlan::Jpeg { quality },
        OutputFormat::Png => EncodePlan::Png { strip_alpha: input_is_jpeg },
        OutputFormat::Webp => if quality >= 100 {
            EncodePlan::WebpLossless
        } else {
            EncodePlan::WebpLossy { quality }
        },
    }
}

/// Whether a plan converts the image to a channel model without alpha before
/// encoding.
pub open spec fn spec_plan_strips_alpha(plan: EncodePlan) -> bool {
    match plan {
        EncodePlan::Jpeg { .. } => true,
        EncodePlan::Png { strip_alpha } => strip_alpha,
        EncodePlan::WebpLossless => true,
        EncodePlan::WebpLossy { .. } => true,
    }
}

/// Select the encode plan for the given target format and quality.
pub fn select_encode_plan(format: OutputFormat, quality: u8, input_is_jpeg: bool) -> (p: EncodePlan)
    ensures
        p == spec_encode_plan(format, quality, input_is_jpeg),
{
    match format {
        OutputFormat::Jpeg => EncodePlan::Jpeg { quality },
        OutputFormat::Png => EncodePlan::Png { strip_alpha: input_is_jpeg },
        OutputFormat::Webp => if quality >= 100 {
            EncodePlan::WebpLossless
        } else {
            EncodePlan::WebpLossy { quality }
        },
    }
}

/// Whether this plan calls for stripping alpha before encoding.
pub fn plan_strips_alpha(plan: &EncodePlan) -> (r: bool)
    ensures
        r == spec_plan_strips_alpha(*plan),
{
    match plan {
        EncodePlan::Jpeg { .. } => true,
        EncodePlan::Png { strip_alpha } => *strip_alpha,
        EncodePlan::WebpLossless => true,
        EncodePlan::WebpLossy { .. } => true,
    }
}

} // verus!

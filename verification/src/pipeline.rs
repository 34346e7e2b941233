//! The per-file compression pipeline: decode, the pre-flight skip decision,
//! resize, format-specific encode, and the savings guard, all on in-memory
//! byte buffers. The caller supplies the file's bytes and names and carries
//! out the returned action; no file is touched here.
//!
//! Every step is a function of the input bytes, the names and the request
//! alone, so the whole pipeline is deterministic. The one encode path the
//! library cannot drive itself is lossy WebP (its encoder is configured
//! through a floating-point quality setting); for it the pipeline hands the
//! fully prepared image back to the caller, who encodes and then finishes
//! through `finish_encoded`, so the guard still runs on every encode.

use crate::codec::WEBP_MAX_DIMENSION;
use crate::codec::decode_image;
use crate::codec::decoded_image;
use crate::codec::encode_jpeg;
use crate::codec::encode_png;
use crate::codec::encode_webp_lossless;
use crate::codec::image_dimensions;
use crate::codec::image_dims;
use crate::codec::jpeg_encoding;
use crate::codec::png_encoding;
use crate::codec::resize_image;
use crate::codec::resized_image;
use crate::codec::rgb8_image;
use crate::codec::to_rgb8;
use crate::codec::webp_lossless_encoding;
use crate::format::OutputFormat;
use crate::format::is_jpeg_extension;
use crate::format::output_filename;
use crate::format::spec_is_jpeg_extension;
use crate::guard::Disposition;
use crate::guard::FileStatus;
use crate::guard::apply_guard;
use crate::guard::spec_guard;
use crate::heuristic::SKIP_QUALITY_MARGIN;
use crate::heuristic::should_skip_reencode;
use crate::heuristic::spec_estimated_jpeg_quality;
use crate::heuristic::spec_should_skip;
use crate::outcome::FileOutcome;
use crate::plan::EncodePlan;
use crate::plan::plan_strips_alpha;
use crate::plan::select_encode_plan;
use crate::plan::spec_encode_plan;
use crate::plan::spec_plan_strips_alpha;
use crate::request::CompressionRequest;
use crate::resize::resize_target;
use crate::resize::spec_resize_target;
use vstd::prelude::*;

verus! {

/// A per-file failure: the stage that failed and the codec's message.
#[derive(Debug)]
pub enum CompressError {
    /// The input bytes could not be decoded as an image.
    Decode(String),
    /// The encoder failed to produce output.
    Encode(String),
}

impl CompressError {
    /// The codec's message.
    pub fn message(&self) -> (r: &str)
        ensures
            self matches CompressError::Decode(m) ==> r@ == m@,
            self matches CompressError::Encode(m) ==> r@ == m@,
    {
        match self {
            CompressError::Decode(m) => m.as_str(),
            CompressError::Encode(m) => m.as_str(),
        }
    }
}

/// What the caller must do in the output directory for one processed file.
pub enum OutputAction {
    /// Write these bytes under this output name.
    WriteEncoded { bytes: Vec<u8>, name: String },
    /// Write a verbatim copy of the original file under its original name.
    CopyOriginal,
    /// Write nothing.
    NoOutput,
}

/// The mathematical content of an `OutputAction`.
pub enum SpecAction {
    WriteEncoded(Seq<u8>, Seq<char>),
    CopyOriginal,
    NoOutput,
}

impl View for OutputAction {
    type V = SpecAction;

    open spec fn view(&self) -> SpecAction {
        match self {
            OutputAction::WriteEncoded { bytes, name } => SpecAction::WriteEncoded(bytes@, name@),
            OutputAction::CopyOriginal => SpecAction::CopyOriginal,
            OutputAction::NoOutput => SpecAction::NoOutput,
        }
    }
}

/// One file's finalized record together with the action that realizes it.
pub struct ProcessOutcome {
    pub outcome: FileOutcome,
    pub action: OutputAction,
}

/// The mathematical content of a `ProcessOutcome`.
pub struct SpecProcessOutcome {
    pub filename: Seq<char>,
    pub status: FileStatus,
    pub original_size: u64,
    pub final_size: u64,
    pub action: SpecAction,
}

impl View for ProcessOutcome {
    type V = SpecProcessOutcome;

    open spec fn view(&self) -> SpecProcessOutcome {
        SpecProcessOutcome {
            filename: self.outcome.filename@,
            status: self.outcome.status,
            original_size: self.outcome.original_size,
            final_size: self.outcome.final_size,
            action: self.action@,
        }
    }
}

/// What the pipeline comes to on one input, as a mathematical value.
pub enum SpecStep {
    /// Processing finished with this outcome.
    Done(SpecProcessOutcome),
    /// The image is prepared; a lossy WebP encode at this quality must be
    /// supplied by the caller.
    NeedsLossyWebp(image::DynamicImage, u8),
    /// The input bytes are not a decodable image.
    DecodeFailed,
    /// The encoder produced no output.
    EncodeFailed,
}

/// What the pipeline returns on success.
pub enum CompressStep {
    /// Processing finished inside the library.
    Done(ProcessOutcome),
    /// The caller must encode this prepared image as lossy WebP at this
    /// quality and finish through `finish_encoded`.
    NeedsLossyWebp { image: image::DynamicImage, quality: u8 },
}

/// The outcome of running the savings guard over an encoded artifact.
pub open spec fn spec_finish_encoded(
    filename: Seq<char>,
    stem: Seq<char>,
    original_size: u64,
    threshold: u8,
    format: OutputFormat,
    encoded: Seq<u8>,
) -> SpecProcessOutcome {
    let verdict = spec_guard(original_size, encoded.len() as u64, threshold);
    SpecProcessOutcome {
        filename,
        status: verdict.status,
        original_size,
        final_size: verdict.final_size,
        action: match verdict.disposition {
            Disposition::WriteEncoded => SpecAction::WriteEncoded(
                encoded,
                stem + "."@ + format.spec_extension(),
            ),
            Disposition::CopyOriginal => SpecAction::CopyOriginal,
            Disposition::NoOutput => SpecAction::NoOutput,
        },
    }
}

/// Lift an encoder's result to a pipeline step: a missing encoding is an
/// encode failure, a present one goes through the savings guard.
pub open spec fn spec_step_from_encoding(
    filename: Seq<char>,
    stem: Seq<char>,
    original_size: u64,
    threshold: u8,
    format: OutputFormat,
    enc: Option<Seq<u8>>,
) -> SpecStep {
    match enc {
        Option::None => SpecStep::EncodeFailed,
        Option::Some(encoded) => SpecStep::Done(
            spec_finish_encoded(filename, stem, original_size, threshold, format, encoded),
        ),
    }
}

/// The whole pipeline as a function of the input bytes, the file's names,
/// and the request.
pub open spec fn spec_compress_step(
    filename: Seq<char>,
    stem: Seq<char>,
    ext: Seq<char>,
    bytes: Seq<u8>,
    req: CompressionRequest,
) -> SpecStep {
    match decoded_image(bytes) {
        Option::None => SpecStep::DecodeFailed,
        Option::Some(img) => {
            let original_size = bytes.len() as u64;
            let dims = image_dims(img);
            let input_is_jpeg = spec_is_jpeg_extension(ext);
            if spec_should_skip(
                input_is_jpeg,
                req.format,
                req.quality,
                SKIP_QUALITY_MARGIN,
                spec_estimated_jpeg_quality(original_size, dims.0, dims.1),
            ) {
                SpecStep::Done(
                    SpecProcessOutcome {
                        filename,
                        status: FileStatus::Skipped,
                        original_size,
                        final_size: original_size,
                        action: SpecAction::NoOutput,
                    },
                )
            } else {
                let sized = match spec_resize_target(
                    dims.0,
                    dims.1,
                    req.max_width,
                    req.max_height,
                ) {
                    Option::Some(t) => resized_image(img, t.0, t.1),
                    Option::None => img,
                };
                let plan = spec_encode_plan(req.format, req.quality, input_is_jpeg);
                let prepared = if spec_plan_strips_alpha(plan) {
                    rgb8_image(sized)
                } else {
                    sized
                };
                match plan {
                    EncodePlan::Jpeg { quality } => spec_step_from_encoding(
                        filename,
                        stem,
                        original_size,
                        req.min_savings_percent,
                        OutputFormat::Jpeg,
                        jpeg_encoding(prepared, quality),
                    ),
                    EncodePlan::Png { .. } => spec_step_from_encoding(
                        filename,
                        stem,
                        original_size,
                        req.min_savings_percent,
                        OutputFormat::Png,
                        png_encoding(prepared),
                    ),
                    EncodePlan::WebpLossless => {
                        let pdims = image_dims(prepared);
                        if 1 <= pdims.0 <= WEBP_MAX_DIMENSION && 1 <= pdims.1
                            <= WEBP_MAX_DIMENSION {
                            spec_step_from_encoding(
                                filename,
                                stem,
                                original_size,
                                req.min_savings_percent,
                                OutputFormat::Webp,
                                webp_lossless_encoding(prepared),
                            )
                        } else {
                            SpecStep::EncodeFailed
                        }
                    },
                    EncodePlan::WebpLossy { quality } => SpecStep::NeedsLossyWebp(
                        prepared,
                        quality,
                    ),
                }
            }
        },
    }
}

/// Run the savings guard over an encoded artifact and build the file's
/// record and action.
pub fn finish_encoded(
    filename: &str,
    stem: &str,
    original_size: u64,
    threshold: u8,
    format: OutputFormat,
    encoded: Vec<u8>,
) -> (r: ProcessOutcome)
    ensures
        r@ == spec_finish_encoded(filename@, stem@, original_size, threshold, format, encoded@),
        r.outcome.wf(),
{
    let encoded_len = encoded.len() as u64;
    let verdict = apply_guard(original_size, encoded_len, threshold);
    let action = match verdict.disposition {
        Disposition::WriteEncoded => OutputAction::WriteEncoded {
            bytes: encoded,
            name: output_filename(stem, format),
        },
        Disposition::CopyOriginal => OutputAction::CopyOriginal,
        Disposition::NoOutput => OutputAction::NoOutput,
    };
    let outcome = FileOutcome::new(
        filename.to_owned(),
        original_size,
        verdict.final_size,
        verdict.status,
    );
    ProcessOutcome { outcome, action }
}

/// Process one input file held in memory: decode it, decide whether to skip,
/// resize and convert as the plan asks, encode, and run the savings guard.
/// The result is exactly `spec_compress_step` of the inputs; for a lossy
/// WebP target the prepared image is handed back for the caller to encode.
pub fn compress_file_bytes(
    filename: &str,
    stem: &str,
    ext: &str,
    bytes: &Vec<u8>,
    req: &CompressionRequest,
) -> (r: Result<CompressStep, CompressError>)
    requires
        req.wf(),
    ensures
        match r {
            Result::Ok(step) => match step {
                CompressStep::Done(out) => SpecStep::Done(out@) == spec_compress_step(
                    filename@,
                    stem@,
                    ext@,
                    bytes@,
                    *req,
                ) && out.outcome.wf(),
                CompressStep::NeedsLossyWebp { image, quality } => SpecStep::NeedsLossyWebp(
                    image,
                    quality,
                ) == spec_compress_step(filename@, stem@, ext@, bytes@, *req),
            },
            Result::Err(e) => match e {
                CompressError::Decode(_) => spec_compress_step(
                    filename@,
                    stem@,
                    ext@,
                    bytes@,
                    *req,
                ) is DecodeFailed,
                CompressError::Encode(_) => spec_compress_step(
                    filename@,
                    stem@,
                    ext@,
                    bytes@,
                    *req,
                ) is EncodeFailed,
            },
        },
{
    let original_size = bytes.len() as u64;
    let img = match decode_image(bytes) {
        Ok(i) => i,
        Err(msg) => {
            return Err(CompressError::Decode(msg));
        },
    };
    let (width, height) = image_dimensions(&img);
    let input_is_jpeg = is_jpeg_extension(ext);
    if should_skip_reencode(
        input_is_jpeg,
        req.format,
        req.quality,
        SKIP_QUALITY_MARGIN,
        original_size,
        width,
        height,
    ) {
        let outcome = FileOutcome::new(
            filename.to_owned(),
            original_size,
            original_size,
            FileStatus::Skipped,
        );
        return Ok(CompressStep::Done(ProcessOutcome { outcome, action: OutputAction::NoOutput }));
    }
    proof {
        crate::resize::lemma_resize_target_positive(width, height, req.max_width, req.max_height);
    }
    let sized = match resize_target(width, height, req.max_width, req.max_height) {
        Some(target) => resize_image(&img, target.0, target.1),
        None => img,
    };
    let plan = select_encode_plan(req.format, req.quality, input_is_jpeg);
    let prepared = if plan_strips_alpha(&plan) {
        to_rgb8(&sized)
    } else {
        sized
    };
    match plan {
        EncodePlan::Jpeg { quality } => match encode_jpeg(&prepared, quality) {
            Ok(encoded) => Ok(
                CompressStep::Done(
                    finish_encoded(
                        filename,
                        stem,
                        original_size,
                        req.min_savings_percent,
                        OutputFormat::Jpeg,
                        encoded,
                    ),
                ),
            ),
            Err(msg) => Err(CompressError::Encode(msg)),
        },
        EncodePlan::Png { .. } => match encode_png(&prepared) {
            Ok(encoded) => Ok(
                CompressStep::Done(
                    finish_encoded(
                        filename,
                        stem,
                        original_size,
                        req.min_savings_percent,
                        OutputFormat::Png,
                        encoded,
                    ),
                ),
            ),
            Err(msg) => Err(CompressError::Encode(msg)),
        },
        EncodePlan::WebpLossless => {
            let (pw, ph) = image_dimensions(&prepared);
            if 1 <= pw && pw <= WEBP_MAX_DIMENSION && 1 <= ph && ph <= WEBP_MAX_DIMENSION {
                match encode_webp_lossless(&prepared) {
                    Ok(encoded) => Ok(
                        CompressStep::Done(
                            finish_encoded(
                                filename,
                                stem,
                                original_size,
                                req.min_savings_percent,
                                OutputFormat::Webp,
                                encoded,
                            ),
                        ),
                    ),
                    Err(msg) => Err(CompressError::Encode(msg)),
                }
            } else {
                Err(
                    CompressError::Encode(
                        "image dimensions outside the WebP range".to_owned(),
                    ),
                )
            }
        },
        EncodePlan::WebpLossy { quality } => Ok(
            CompressStep::NeedsLossyWebp { image: prepared, quality },
        ),
    }
}

/// Idempotence law: the pipeline is a function of the input bytes, the
/// file's names and the request alone, so two runs over the same input under
/// the same configuration come to the same step — in particular, to
/// byte-identical output where output is written.
pub proof fn lemma_pipeline_deterministic(
    filename: Seq<char>,
    stem: Seq<char>,
    ext: Seq<char>,
    bytes: Seq<u8>,
    req: CompressionRequest,
    first: SpecStep,
    second: SpecStep,
)
    requires
        first == spec_compress_step(filename, stem, ext, bytes, req),
        second == spec_compress_step(filename, stem, ext, bytes, req),
    ensures
        first == second,
{
}

/// Threshold law, at the guard: a finished file reported `Skipped` is
/// reported unchanged, and its encoded artifact is never written.
pub proof fn lemma_finished_skipped_unchanged(
    filename: Seq<char>,
    stem: Seq<char>,
    original_size: u64,
    threshold: u8,
    format: OutputFormat,
    encoded: Seq<u8>,
)
    ensures
        spec_finish_encoded(filename, stem, original_size, threshold, format, encoded).original_size
            == original_size,
        spec_finish_encoded(filename, stem, original_size, threshold, format, encoded).status
            is Skipped ==> {
            &&& spec_finish_encoded(
                filename,
                stem,
                original_size,
                threshold,
                format,
                encoded,
            ).final_size == original_size
            &&& !(spec_finish_encoded(
                filename,
                stem,
                original_size,
                threshold,
                format,
                encoded,
            ).action is WriteEncoded)
        },
{
    crate::guard::lemma_skipped_reports_unchanged(original_size, encoded.len() as u64, threshold);
}

/// Anti-inflation law, at the guard: whatever is written is the encoded
/// artifact itself, its size is the reported final size, and it is never
/// more than 50% larger than the original; an artifact beyond that bound is
/// replaced by a verbatim copy of the original.
pub proof fn lemma_finished_never_inflated(
    filename: Seq<char>,
    stem: Seq<char>,
    original_size: u64,
    threshold: u8,
    format: OutputFormat,
    encoded: Seq<u8>,
)
    requires
        encoded.len() <= u64::MAX,
    ensures
        spec_finish_encoded(filename, stem, original_size, threshold, format, encoded).action
            matches SpecAction::WriteEncoded(b, _) ==> {
            &&& b == encoded
            &&& b.len() == spec_finish_encoded(
                filename,
                stem,
                original_size,
                threshold,
                format,
                encoded,
            ).final_size
            &&& b.len() <= original_size + original_size / 2
        },
        encoded.len() > original_size + original_size / 2 ==> spec_finish_encoded(
            filename,
            stem,
            original_size,
            threshold,
            format,
            encoded,
        ).action is CopyOriginal,
{
    crate::guard::lemma_no_inflated_output(original_size, encoded.len() as u64, threshold);
}

/// Threshold and anti-inflation laws over the whole pipeline: a finished
/// outcome reported `Skipped` is reported unchanged with nothing written,
/// and whatever the pipeline asks to have written is never more than 50%
/// larger than the original file.
pub proof fn lemma_pipeline_output_bounds(
    filename: Seq<char>,
    stem: Seq<char>,
    ext: Seq<char>,
    bytes: Seq<u8>,
    req: CompressionRequest,
)
    ensures
        spec_compress_step(filename, stem, ext, bytes, req) matches SpecStep::Done(out) ==> {
            &&& out.original_size == bytes.len() as u64
            &&& (out.status is Skipped ==> out.final_size == out.original_size && !(out.action
                is WriteEncoded))
            &&& (out.action matches SpecAction::WriteEncoded(b, _) ==> (b.len() <= u64::MAX
                ==> b.len() == out.final_size && b.len() <= out.original_size + out.original_size
                    / 2))
        },
{
    match decoded_image(bytes) {
        Option::None => (),
        Option::Some(img) => {
            let original_size = bytes.len() as u64;
            let dims = image_dims(img);
            let input_is_jpeg = spec_is_jpeg_extension(ext);
            let sized = match spec_resize_target(dims.0, dims.1, req.max_width, req.max_height) {
                Option::Some(t) => resized_image(img, t.0, t.1),
                Option::None => img,
            };
            let plan = spec_encode_plan(req.format, req.quality, input_is_jpeg);
            let prepared = if spec_plan_strips_alpha(plan) {
                rgb8_image(sized)
            } else {
                sized
            };
            let encoding = match plan {
                EncodePlan::Jpeg { quality } => jpeg_encoding(prepared, quality),
                EncodePlan::Png { .. } => png_encoding(prepared),
                EncodePlan::WebpLossless => webp_lossless_encoding(prepared),
                EncodePlan::WebpLossy { .. } => Option::None,
            };
            let format = req.format;
            match encoding {
                Option::Some(encoded) => {
                    lemma_finished_skipped_unchanged(
                        filename,
                        stem,
                        original_size,
                        req.min_savings_percent,
                        format,
                        encoded,
                    );
                    if encoded.len() <= u64::MAX {
                        lemma_finished_never_inflated(
                            filename,
                            stem,
                            original_size,
                            req.min_savings_percent,
                            format,
                            encoded,
                        );
                    }
                },
                Option::None => (),
            }
        },
    }
}

} // verus!

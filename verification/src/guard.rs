//! Savings guard: after an encode, compares the encoded size against the
//! original size and the minimum-savings threshold and decides the final
//! disposition of the file. The guard is format-agnostic and runs after
//! every encode.

use vstd::prelude::*;

verus! {

/// Classification of one processed file.
#[derive(Clone, Copy, PartialEq, Eq, Structural, Debug)]
pub enum FileStatus {
    /// The encoded artifact was kept and is smaller than the original.
    Compressed,
    /// The attempt was discarded; the file is reported unchanged.
    Skipped,
    /// The encoded artifact was kept although it is larger than the original.
    Enlarged,
    /// The encoded artifact was kept and matches the original size exactly.
    NoChange,
}

/// What the caller must do with the encoded bytes.
#[derive(Clone, Copy, PartialEq, Eq, Structural, Debug)]
pub enum Disposition {
    /// Write the encoded bytes under the output name.
    WriteEncoded,
    /// Discard the encoded bytes and place a verbatim copy of the original
    /// file, under its original name, in the output directory.
    CopyOriginal,
    /// Discard the encoded bytes; nothing is written.
    NoOutput,
}

/// The guard's decision for one encoded file.
#[derive(Clone, Copy, PartialEq, Eq, Structural, Debug)]
pub struct GuardVerdict {
    pub status: FileStatus,
    pub final_size: u64,
    pub disposition: Disposition,
}

/// The encoded artifact is more than 50% larger than the original
/// (integer halving, so the bound is exact for even sizes and rounds the
/// allowance down for odd ones).
pub open spec fn spec_inflated(original: u64, encoded: u64) -> bool {
    encoded > original + original / 2
}

/// Realized savings fall short of the minimum-savings threshold.
/// Savings are measured as `(original - encoded) / original * 100`, taken as
/// 0 when nothing was saved (including `original == 0`); the comparison is
/// exact, carried out on cross-multiplied integers.
pub open spec fn spec_below_threshold(original: u64, encoded: u64, threshold: u8) -> bool {
    if original == 0 || encoded >= original {
        0 < threshold
    } else {
        (original - encoded) * 100 < threshold * original
    }
}

/// The guard's decision as a function of the sizes and the threshold:
/// an artifact more than 50% above the original is replaced by a verbatim
/// copy; one that saves less than the threshold is discarded; anything else
/// is kept and classified by how its size compares to the original.
pub open spec fn spec_guard(original: u64, encoded: u64, threshold: u8) -> GuardVerdict {
    if spec_inflated(original, encoded) {
        GuardVerdict {
            status: FileStatus::Skipped,
            final_size: original,
            disposition: Disposition::CopyOriginal,
        }
    } else if spec_below_threshold(original, encoded, threshold) {
        GuardVerdict {
            status: FileStatus::Skipped,
            final_size: original,
            disposition: Disposition::NoOutput,
        }
    } else {
        GuardVerdict {
            status: if encoded < original {
                FileStatus::Compressed
            } else if encoded == original {
                FileStatus::NoChange
            } else {
                FileStatus::Enlarged
            },
            final_size: encoded,
            disposition: Disposition::WriteEncoded,
        }
    }
}

/// Decide the disposition of an encoded artifact of `encoded` bytes produced
/// from an original of `original` bytes, under a minimum-savings threshold
/// given in whole percent.
pub fn apply_guard(original: u64, encoded: u64, threshold: u8) -> (v: GuardVerdict)
    ensures
        v == spec_guard(original, encoded, threshold),
{
    let inflated = (encoded as u128) > (original as u128) + (original as u128) / 2;
    if inflated {
        GuardVerdict {
            status: FileStatus::Skipped,
            final_size: original,
            disposition: Disposition::CopyOriginal,
        }
    } else {
        let below = if original == 0 || encoded >= original {
            0 < threshold
        } else {
            let t = threshold as u128;
            let o = original as u128;
            proof {
                assert(t * o <= 255 * 0xffff_ffff_ffff_ffffu128) by (nonlinear_arith)
                    requires
                        t <= 255,
                        o <= 0xffff_ffff_ffff_ffffu128,
                ;
            }
            ((original - encoded) as u128) * 100 < t * o
        };
        if below {
            GuardVerdict {
                status: FileStatus::Skipped,
                final_size: original,
                disposition: Disposition::NoOutput,
            }
        } else {
            GuardVerdict {
                status: if encoded < original {
                    FileStatus::Compressed
                } else if encoded == original {
                    FileStatus::NoChange
                } else {
                    FileStatus::Enlarged
                },
                final_size: encoded,
                disposition: Disposition::WriteEncoded,
            }
        }
    }
}

/// Threshold law: a guard verdict of `Skipped` always reports the file
/// unchanged, and never asks for the encoded artifact to be written.
pub proof fn lemma_skipped_reports_unchanged(original: u64, encoded: u64, threshold: u8)
    ensures
        spec_guard(original, encoded, threshold).status is Skipped ==> {
            &&& spec_guard(original, encoded, threshold).final_size == original
            &&& spec_guard(original, encoded, threshold).disposition != Disposition::WriteEncoded
        },
{
}

/// Anti-inflation law: the guard never asks for an artifact more than 50%
/// larger than the original to be written; in that case it substitutes a
/// verbatim copy of the original instead.
pub proof fn lemma_no_inflated_output(original: u64, encoded: u64, threshold: u8)
    ensures
        spec_guard(original, encoded, threshold).disposition is WriteEncoded ==> encoded <= original
            + original / 2,
        spec_inflated(original, encoded) ==> spec_guard(original, encoded, threshold).disposition
            is CopyOriginal,
{
}

} // verus!

//! Per-file outcomes and the run's statistics accumulator.
//!
//! `RunStatistics` is the only shared mutable state of a run. Its
//! well-formedness invariant — the processed-file count equals the number of
//! recorded outcomes, and the aggregate byte counters equal the sums of the
//! per-file sizes — is established by `new` and preserved by every recording
//! operation, so it holds after every insertion.

use crate::guard::FileStatus;
use vstd::prelude::*;
use vstd::string::StringExecFns;

verus! {

/// Realized savings in basis points (hundredths of a percent):
/// `(original - final) / original * 10000`, rounded towards zero, 0 when the
/// original is empty, and negative when the final size exceeds the original.
pub open spec fn spec_savings_basis_points(original: u64, final_size: u64) -> int {
    if original == 0 {
        0
    } else if final_size <= original {
        ((original - final_size) * 10000) / (original as int)
    } else {
        -(((final_size - original) * 10000) / (original as int))
    }
}

/// Compute the realized savings of a file in basis points.
pub fn savings_basis_points(original: u64, final_size: u64) -> (r: i128)
    ensures
        r as int == spec_savings_basis_points(original, final_size),
{
    if original == 0 {
        0
    } else if final_size <= original {
        let numer = ((original - final_size) as u128) * 10000;
        let q = numer / (original as u128);
        proof {
            vstd::arithmetic::div_mod::lemma_div_nonincreasing(numer as int, original as int);
        }
        q as i128
    } else {
        let numer = ((final_size - original) as u128) * 10000;
        let q = numer / (original as u128);
        proof {
            vstd::arithmetic::div_mod::lemma_div_nonincreasing(numer as int, original as int);
        }
        -(q as i128)
    }
}

/// The finalized record of one processed input file.
#[derive(Debug, Clone)]
pub struct FileOutcome {
    pub filename: String,
    pub original_size: u64,
    pub final_size: u64,
    pub status: FileStatus,
    pub savings_basis_points: i128,
}

/// The mathematical content of a `FileOutcome`.
pub struct FileOutcomeView {
    pub filename: Seq<char>,
    pub original_size: u64,
    pub final_size: u64,
    pub status: FileStatus,
    pub savings_basis_points: i128,
}

impl View for FileOutcome {
    type V = FileOutcomeView;

    open spec fn view(&self) -> FileOutcomeView {
        FileOutcomeView {
            filename: self.filename@,
            original_size: self.original_size,
            final_size: self.final_size,
            status: self.status,
            savings_basis_points: self.savings_basis_points,
        }
    }
}

impl FileOutcome {
    /// The stored savings figure agrees with the stored sizes.
    pub open spec fn wf(self) -> bool {
        self.savings_basis_points == spec_savings_basis_points(self.original_size, self.final_size)
    }

    /// Build the record of one processed file, with its savings computed
    /// from the two sizes.
    pub fn new(filename: String, original_size: u64, final_size: u64, status: FileStatus) -> (r:
        FileOutcome)
        ensures
            r@ == (FileOutcomeView {
                filename: filename@,
                original_size,
                final_size,
                status,
                savings_basis_points: r.savings_basis_points,
            }),
            r.wf(),
    {
        let savings = savings_basis_points(original_size, final_size);
        FileOutcome { filename, original_size, final_size, status, savings_basis_points: savings }
    }
}

/// Sum of the original sizes of a sequence of outcomes.
pub open spec fn spec_sum_original(s: Seq<FileOutcome>) -> int
    decreases s.len(),
{
    if s.len() == 0 {
        0
    } else {
        spec_sum_original(s.drop_last()) + s.last().original_size
    }
}

/// Sum of the final sizes of a sequence of outcomes.
pub open spec fn spec_sum_final(s: Seq<FileOutcome>) -> int
    decreases s.len(),
{
    if s.len() == 0 {
        0
    } else {
        spec_sum_final(s.drop_last()) + s.last().final_size
    }
}

/// Both sums are nonnegative and bounded by the number of outcomes times the
/// largest file size, so the 128-bit accumulators can never wrap.
proof fn lemma_sum_bounds(s: Seq<FileOutcome>)
    ensures
        0 <= spec_sum_original(s) <= s.len() * 0xffff_ffff_ffff_ffff,
        0 <= spec_sum_final(s) <= s.len() * 0xffff_ffff_ffff_ffff,
    decreases s.len(),
{
    if s.len() > 0 {
        lemma_sum_bounds(s.drop_last());
    }
}

/// The mutable accumulator of one run: how many files were processed, the
/// aggregate byte counts, the per-file outcomes in completion order, and the
/// error messages of failed files. The byte counters are 128 bits wide so
/// that sums of arbitrarily many 64-bit sizes stay exact.
#[derive(Debug)]
pub struct RunStatistics {
    pub files_processed: usize,
    pub original_size: u128,
    pub compressed_size: u128,
    pub errors: Vec<String>,
    pub file_results: Vec<FileOutcome>,
}

impl Default for RunStatistics {
    /// An empty, well-formed accumulator.
    fn default() -> (r: RunStatistics)
        ensures
            r.wf(),
            r.files_processed == 0,
            r.original_size == 0,
            r.compressed_size == 0,
            r.errors@ == Seq::<String>::empty(),
            r.file_results@ == Seq::<FileOutcome>::empty(),
    {
        RunStatistics::new()
    }
}

impl RunStatistics {
    /// The accumulator's invariant: the count of processed files equals the
    /// number of recorded outcomes, and each aggregate byte counter is the
    /// sum of the corresponding per-file field.
    pub open spec fn wf(self) -> bool {
        &&& self.files_processed == self.file_results@.len()
        &&& self.original_size == spec_sum_original(self.file_results@)
        &&& self.compressed_size == spec_sum_final(self.file_results@)
    }

    /// An empty, well-formed accumulator.
    pub fn new() -> (r: RunStatistics)
        ensures
            r.wf(),
            r.files_processed == 0,
            r.original_size == 0,
            r.compressed_size == 0,
            r.errors@ == Seq::<String>::empty(),
            r.file_results@ == Seq::<FileOutcome>::empty(),
    {
        RunStatistics {
            files_processed: 0,
            original_size: 0,
            compressed_size: 0,
            errors: Vec::new(),
            file_results: Vec::new(),
        }
    }

    /// Record the outcome of one successfully processed file: exactly one
    /// outcome is appended, the counters grow by exactly its sizes, and the
    /// invariant is preserved.
    pub fn record_outcome(&mut self, outcome: FileOutcome)
        requires
            old(self).wf(),
        ensures
            final(self).wf(),
            final(self).file_results@ == old(self).file_results@.push(outcome),
            final(self).errors == old(self).errors,
            final(self).files_processed == old(self).files_processed + 1,
            final(self).original_size == old(self).original_size + outcome.original_size,
            final(self).compressed_size == old(self).compressed_size + outcome.final_size,
    {
        proof {
            lemma_sum_bounds(self.file_results@);
            assert(self.file_results@.len() <= usize::MAX);
        }
        self.original_size = self.original_size + (outcome.original_size as u128);
        self.compressed_size = self.compressed_size + (outcome.final_size as u128);
        self.file_results.push(outcome);
        self.files_processed = self.file_results.len();
        proof {
            assert(self.file_results@.drop_last() =~= old(self).file_results@);
        }
    }

    /// Record the failure of one file as "<filename>: <message>": exactly
    /// one error line is appended and nothing else changes.
    pub fn record_error(&mut self, filename: &str, message: &str)
        requires
            old(self).wf(),
        ensures
            final(self).wf(),
            final(self).file_results == old(self).file_results,
            final(self).files_processed == old(self).files_processed,
            final(self).original_size == old(self).original_size,
            final(self).compressed_size == old(self).compressed_size,
            final(self).errors@.map_values(|e: String| e@) == old(self).errors@.map_values(
                |e: String| e@,
            ).push(filename@ + ": "@ + message@),
    {
        let mut line = filename.to_owned();
        line.append(": ");
        line.append(message);
        self.errors.push(line);
        proof {
            assert(self.errors@.map_values(|e: String| e@) =~= old(self).errors@.map_values(
                |e: String| e@,
            ).push(filename@ + ": "@ + message@));
        }
    }

    /// Aggregate savings in basis points, for runs whose byte totals fit the
    /// per-file size range.
    pub fn aggregate_savings_basis_points(&self) -> (r: i128)
        requires
            self.original_size <= 0xffff_ffff_ffff_ffff,
            self.compressed_size <= 0xffff_ffff_ffff_ffff,
        ensures
            r as int == spec_savings_basis_points(
                self.original_size as u64,
                self.compressed_size as u64,
            ),
    {
        savings_basis_points(self.original_size as u64, self.compressed_size as u64)
    }
}

} // verus!

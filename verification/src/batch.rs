//! Batch aggregation: folding the per-file results of a run, in whatever
//! order they complete, into a `RunStatistics`.
//!
//! Every processed file ends as exactly one event — a successful outcome or
//! a failure — and aggregation records exactly one entry per event: nothing
//! is lost and nothing is duplicated, whatever the completion order was.

use crate::outcome::FileOutcome;
use crate::outcome::RunStatistics;
use vstd::prelude::*;

verus! {

/// What one file's processing came to: a finalized outcome, or a failure
/// with the file's name and the cause.
pub enum FileEvent {
    Success(FileOutcome),
    Failure { filename: String, message: String },
}

/// The outcomes carried by a sequence of events, in order.
pub open spec fn spec_outcomes_of(events: Seq<FileEvent>) -> Seq<FileOutcome>
    decreases events.len(),
{
    if events.len() == 0 {
        Seq::empty()
    } else {
        match events.first() {
            FileEvent::Success(o) => seq![o] + spec_outcomes_of(events.drop_first()),
            FileEvent::Failure { .. } => spec_outcomes_of(events.drop_first()),
        }
    }
}

/// The error lines carried by a sequence of events, in order, each formatted
/// as "<filename>: <message>".
pub open spec fn spec_error_lines_of(events: Seq<FileEvent>) -> Seq<Seq<char>>
    decreases events.len(),
{
    if events.len() == 0 {
        Seq::empty()
    } else {
        match events.first() {
            FileEvent::Success(_) => spec_error_lines_of(events.drop_first()),
            FileEvent::Failure { filename, message } => seq![filename@ + ": "@ + message@]
                + spec_error_lines_of(events.drop_first()),
        }
    }
}

/// Loss-free aggregation: every event is counted exactly once, either as an
/// outcome or as an error line.
pub proof fn lemma_every_event_is_counted(events: Seq<FileEvent>)
    ensures
        spec_outcomes_of(events).len() + spec_error_lines_of(events).len() == events.len(),
    decreases events.len(),
{
    if events.len() > 0 {
        lemma_every_event_is_counted(events.drop_first());
    }
}

/// Fold a run's events into statistics: the recorded outcomes are exactly
/// the events' outcomes, the error lines exactly the events' failures, and
/// the accumulator's invariant holds.
pub fn aggregate_results(events: Vec<FileEvent>) -> (stats: RunStatistics)
    ensures
        stats.wf(),
        stats.file_results@ == spec_outcomes_of(events@),
        stats.errors@.map_values(|e: String| e@) == spec_error_lines_of(events@),
        stats.files_processed + stats.errors@.len() == events@.len(),
{
    let ghost all = events@;
    let mut remaining = events;
    let mut stats = RunStatistics::new();
    proof {
        assert(stats.errors@.map_values(|e: String| e@) =~= Seq::<Seq<char>>::empty());
    }
    while remaining.len() > 0
        invariant
            stats.wf(),
            spec_outcomes_of(all) == stats.file_results@ + spec_outcomes_of(remaining@),
            spec_error_lines_of(all) == stats.errors@.map_values(|e: String| e@)
                + spec_error_lines_of(remaining@),
        decreases remaining.len(),
    {
        let ghost before = remaining@;
        let event = remaining.remove(0);
        proof {
            assert(before =~= seq![event] + remaining@);
            assert(before.drop_first() =~= remaining@);
        }
        match event {
            FileEvent::Success(outcome) => {
                let ghost results_before = stats.file_results@;
                stats.record_outcome(outcome);
                proof {
                    assert(results_before + spec_outcomes_of(before) =~= stats.file_results@
                        + spec_outcomes_of(remaining@));
                }
            },
            FileEvent::Failure { filename, message } => {
                let ghost lines_before = stats.errors@.map_values(|e: String| e@);
                stats.record_error(filename.as_str(), message.as_str());
                proof {
                    assert(lines_before + spec_error_lines_of(before) =~= stats.errors@.map_values(
                        |e: String| e@,
                    ) + spec_error_lines_of(remaining@));
                }
            },
        }
    }
    proof {
        assert(stats.file_results@ + spec_outcomes_of(remaining@) =~= stats.file_results@);
        assert(stats.errors@.map_values(|e: String| e@) + spec_error_lines_of(remaining@)
            =~= stats.errors@.map_values(|e: String| e@));
        lemma_every_event_is_counted(all);
    }
    stats
}

} // verus!

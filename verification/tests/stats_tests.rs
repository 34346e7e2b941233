use pixelsqueeze::batch::aggregate_results;
use pixelsqueeze::FileEvent;
use pixelsqueeze::FileOutcome;
use pixelsqueeze::FileStatus;
use pixelsqueeze::RunStatistics;

fn outcome(name: &str, original: u64, fin: u64, status: FileStatus) -> FileOutcome {
    FileOutcome::new(name.to_owned(), original, fin, status)
}

#[test]
fn new_statistics_are_empty() {
    let stats = RunStatistics::new();
    assert_eq!(stats.files_processed, 0);
    assert_eq!(stats.original_size, 0);
    assert_eq!(stats.compressed_size, 0);
    assert!(stats.errors.is_empty());
    assert!(stats.file_results.is_empty());
}

#[test]
fn recording_outcomes_keeps_counters_in_step() {
    let mut stats = RunStatistics::new();
    stats.record_outcome(outcome("a.png", 1000, 700, FileStatus::Compressed));
    stats.record_outcome(outcome("b.png", 500, 500, FileStatus::NoChange));
    stats.record_outcome(outcome("c.png", 200, 260, FileStatus::Enlarged));

    assert_eq!(stats.files_processed, 3);
    assert_eq!(stats.files_processed, stats.file_results.len());
    assert_eq!(stats.original_size, 1700);
    assert_eq!(stats.compressed_size, 1460);
    let orig_sum: u128 = stats.file_results.iter().map(|r| r.original_size as u128).sum();
    let final_sum: u128 = stats.file_results.iter().map(|r| r.final_size as u128).sum();
    assert_eq!(stats.original_size, orig_sum);
    assert_eq!(stats.compressed_size, final_sum);
    assert!(stats.errors.is_empty());
}

#[test]
fn recording_errors_formats_the_line() {
    let mut stats = RunStatistics::new();
    stats.record_error("broken.gif", "decode failed");
    assert_eq!(stats.errors.len(), 1);
    assert_eq!(stats.errors[0], "broken.gif: decode failed");
    assert_eq!(stats.files_processed, 0);
}

#[test]
fn aggregating_no_events_reports_nothing() {
    let stats = aggregate_results(Vec::new());
    assert_eq!(stats.files_processed, 0);
    assert!(stats.errors.is_empty());
    assert!(stats.file_results.is_empty());
}

#[test]
fn one_corrupt_file_among_five() {
    let events = vec![
        FileEvent::Success(outcome("a.png", 100, 80, FileStatus::Compressed)),
        FileEvent::Success(outcome("b.png", 100, 90, FileStatus::Compressed)),
        FileEvent::Failure {
            filename: "corrupt.png".to_owned(),
            message: "decode failed".to_owned(),
        },
        FileEvent::Success(outcome("c.png", 100, 100, FileStatus::NoChange)),
        FileEvent::Success(outcome("d.png", 100, 100, FileStatus::Skipped)),
    ];
    let stats = aggregate_results(events);
    assert_eq!(stats.files_processed, 4);
    assert_eq!(stats.errors.len(), 1);
    assert_eq!(stats.errors[0], "corrupt.png: decode failed");
    assert_eq!(stats.files_processed + stats.errors.len(), 5);
    assert_eq!(stats.original_size, 400);
    assert_eq!(stats.compressed_size, 370);
    // Completion order is kept.
    assert_eq!(stats.file_results[0].filename, "a.png");
    assert_eq!(stats.file_results[3].filename, "d.png");
}

#[test]
fn aggregate_savings() {
    let mut stats = RunStatistics::new();
    stats.record_outcome(outcome("a.png", 1000, 900, FileStatus::Compressed));
    stats.record_outcome(outcome("b.png", 1000, 900, FileStatus::Compressed));
    // 200 of 2000 bytes saved: 10%, or 1000 basis points.
    assert_eq!(stats.aggregate_savings_basis_points(), 1000);
}

#[test]
fn outcome_carries_exact_savings() {
    let o = outcome("a.png", 500_000, 475_000, FileStatus::Compressed);
    assert_eq!(o.savings_basis_points, 500);
    let e = outcome("b.png", 100, 150, FileStatus::Enlarged);
    assert_eq!(e.savings_basis_points, -5000);
}

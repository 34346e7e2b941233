use pixelsqueeze::guard::apply_guard;
use pixelsqueeze::outcome::savings_basis_points;
use pixelsqueeze::Disposition;
use pixelsqueeze::FileStatus;

#[test]
fn savings_at_threshold_is_compressed() {
    // 500 000 -> 475 000 bytes is exactly 5% savings: kept.
    let v = apply_guard(500_000, 475_000, 5);
    assert_eq!(v.status, FileStatus::Compressed);
    assert_eq!(v.final_size, 475_000);
    assert_eq!(v.disposition, Disposition::WriteEncoded);
    assert!(savings_basis_points(500_000, 475_000) >= 500);
}

#[test]
fn savings_below_threshold_is_skipped() {
    let v = apply_guard(500_000, 480_000, 5);
    assert_eq!(v.status, FileStatus::Skipped);
    assert_eq!(v.final_size, 500_000);
    assert_eq!(v.disposition, Disposition::NoOutput);

    let v = apply_guard(500_000, 499_999, 5);
    assert_eq!(v.status, FileStatus::Skipped);
    assert_eq!(v.final_size, 500_000);
    assert_eq!(v.disposition, Disposition::NoOutput);
}

#[test]
fn inflated_artifact_is_replaced_by_copy() {
    // More than 50% larger than the original: verbatim copy instead.
    let v = apply_guard(100, 151, 0);
    assert_eq!(v.status, FileStatus::Skipped);
    assert_eq!(v.final_size, 100);
    assert_eq!(v.disposition, Disposition::CopyOriginal);
}

#[test]
fn enlarged_artifact_within_bound_is_kept() {
    let v = apply_guard(100, 150, 0);
    assert_eq!(v.status, FileStatus::Enlarged);
    assert_eq!(v.final_size, 150);
    assert_eq!(v.disposition, Disposition::WriteEncoded);
}

#[test]
fn equal_size_is_no_change() {
    let v = apply_guard(100, 100, 0);
    assert_eq!(v.status, FileStatus::NoChange);
    assert_eq!(v.final_size, 100);
    assert_eq!(v.disposition, Disposition::WriteEncoded);
}

#[test]
fn equal_size_under_positive_threshold_is_skipped() {
    let v = apply_guard(100, 100, 1);
    assert_eq!(v.status, FileStatus::Skipped);
    assert_eq!(v.final_size, 100);
    assert_eq!(v.disposition, Disposition::NoOutput);
}

#[test]
fn empty_original_with_output_is_replaced() {
    // Anything is more than 50% larger than zero bytes.
    let v = apply_guard(0, 1, 0);
    assert_eq!(v.status, FileStatus::Skipped);
    assert_eq!(v.final_size, 0);
    assert_eq!(v.disposition, Disposition::CopyOriginal);
}

#[test]
fn empty_to_empty_is_no_change() {
    let v = apply_guard(0, 0, 0);
    assert_eq!(v.status, FileStatus::NoChange);
    assert_eq!(v.final_size, 0);
}

#[test]
fn savings_basis_points_exact_values() {
    assert_eq!(savings_basis_points(500_000, 475_000), 500);
    assert_eq!(savings_basis_points(100, 150), -5000);
    assert_eq!(savings_basis_points(0, 0), 0);
    assert_eq!(savings_basis_points(0, 5), 0);
    assert_eq!(savings_basis_points(3, 1), 6666);
    assert_eq!(savings_basis_points(200, 200), 0);
    assert_eq!(savings_basis_points(u64::MAX, 0), 10000);
    assert_eq!(savings_basis_points(1, u64::MAX), -184_467_440_737_095_516_140_000i128);
}

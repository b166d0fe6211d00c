use piston_mc::download_util::{rate_per_second, TransferMeter};
use piston_mc::progress::ProgressAggregator;

#[test]
fn rate_is_bytes_over_elapsed_seconds() {
    assert_eq!(rate_per_second(5000, 2000), 2500);
    assert_eq!(rate_per_second(1, 3), 333);
    assert_eq!(rate_per_second(12345, 0), 0);
    assert_eq!(rate_per_second(u64::MAX, 1), u64::MAX);
}

#[test]
fn meter_reports_declared_total_and_running_count() {
    let mut m = TransferMeter::new(Some(4096));
    m.record_chunk(1024);
    m.record_chunk(1024);
    let p = m.progress(500);
    assert_eq!(p.bytes_to_download, 4096);
    assert_eq!(p.bytes_downloaded, 2048);
    assert_eq!(p.bytes_per_second, 4096);
}

#[test]
fn meter_without_content_length_has_zero_total() {
    let mut m = TransferMeter::new(None);
    m.record_chunk(10);
    let p = m.progress(0);
    assert_eq!(p.bytes_to_download, 0);
    assert_eq!(p.bytes_downloaded, 10);
    assert_eq!(p.bytes_per_second, 0);
}

#[test]
fn snapshot_rate_uses_window_since_previous_snapshot() {
    let mut a = ProgressAggregator::new(1000);
    a.add_files_total(2);
    a.add_bytes_total(3000);
    a.add_bytes_done(2000);
    a.mark_file_done();
    let s1 = a.snapshot(2000);
    assert_eq!(s1.files_total, 2);
    assert_eq!(s1.files_downloaded, 1);
    assert_eq!(s1.bytes_per_second, 2000);
    a.add_bytes_done(1000);
    a.mark_file_done();
    let s2 = a.snapshot(6000);
    assert_eq!(s2.files_downloaded, 2);
    assert_eq!(s2.bytes_per_second, 250);
    let s3 = a.snapshot(6000);
    assert_eq!(s3.bytes_per_second, 0);
}

#[test]
fn counters_saturate() {
    let mut a = ProgressAggregator::new(0);
    a.add_bytes_total(u64::MAX);
    a.add_bytes_total(1);
    assert_eq!(a.bytes_total, u64::MAX);
}

use recall_loader::results::{Stage, TestResult};

#[test]
fn per_stage_summary_over_recorded_keys() {
    let mut r = TestResult::new();
    r.record("a".to_string(), Stage::Upload, 2_000_000);
    r.record("b".to_string(), Stage::Upload, 1_000_000);
    r.record("a".to_string(), Stage::Download, 500_000);
    r.record("c".to_string(), Stage::Upload, 3_000_000);
    r.record("a".to_string(), Stage::Upload, 1_500_000);
    assert_eq!(r.len(), 3);

    let up = r.stats(Stage::Upload, 1_000_000);
    assert_eq!(up.count, 3);
    assert_eq!(up.total_bytes, 3_000_000);
    assert_eq!(up.time.count, 3);
    assert_eq!(up.time.total, 5_500_000);
    assert_eq!(up.time.min, 1_000_000);
    assert_eq!(up.time.max, 3_000_000);
    assert_eq!(up.time.avg, 1_833_333);
    // 3 MB in 5.5 s: 24 Mbit / 5.5 s = 4.3636 Mbps, 0.5454 MBps
    assert_eq!(up.mbps(), 436);
    assert_eq!(up.mbytes_per_sec(), 55);

    let down = r.stats(Stage::Download, 1_000_000);
    assert_eq!(down.count, 1);
    assert_eq!(down.time.min, 500_000);
    assert_eq!(down.mbps(), 1600);
}

#[test]
fn empty_stage_is_all_zero() {
    let mut r = TestResult::new();
    r.record("a".to_string(), Stage::Upload, 10);
    let del = r.stats(Stage::Delete, 7);
    assert_eq!(del.count, 0);
    assert_eq!(del.total_bytes, 0);
    assert_eq!(del.time.total, 0);
    assert_eq!(del.time.avg, 0);
    assert_eq!(del.time.min, 0);
    assert_eq!(del.time.max, 0);
    assert_eq!(del.mbps(), 0);
    assert_eq!(del.mbytes_per_sec(), 0);
}

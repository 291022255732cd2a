use recall_loader::aggregator::{Aggregator, HumanDuration};
use recall_loader::ops::{Operation, OperationType, Rate, Throughput};

const MS: i64 = 1000;

fn op(id: &str, start_ms: i64, end_ms: i64, kind: OperationType, size: i64, error: &str) -> Operation {
    Operation {
        id: id.to_string(),
        start: start_ms * MS,
        end: end_ms * MS,
        op_type: kind,
        size,
        file: format!("bar/{}.txt", id),
        error: error.to_string(),
    }
}

fn rate_of_throughput(t: Throughput) -> f64 {
    t.bytes as f64 * 1_000_000.0 / t.micros as f64
}

fn rate_of(r: Rate) -> f64 {
    r.amount as f64 * 1_000_000.0 / r.micros as f64
}

#[test]
fn test_insert_new_operation_to_aggregator() {
    let mut aggregator = Aggregator::new();
    let operation1 = Operation {
        id: "1".to_string(),
        start: 1736886531819 * MS,
        end: 1736886532619 * MS,
        op_type: OperationType::Get,
        size: 10,
        file: "bar/1.txt".to_string(),
        error: "".to_string(),
    };
    let operation2 = Operation {
        id: "2".to_string(),
        start: 1736886531989 * MS,
        end: 1736886533619 * MS,
        op_type: OperationType::Get,
        size: 30,
        file: "bar/2.txt".to_string(),
        error: "".to_string(),
    };

    aggregator.insert(operation1);
    aggregator.insert(operation2);

    let aggregated_operation = aggregator.get(OperationType::Get).unwrap();
    assert_eq!(2, aggregated_operation.concurrency());
    assert_eq!("1.800s", HumanDuration(aggregated_operation.duration()).render());
    assert_eq!((10 + 30) as f64 / 1.8, rate_of_throughput(aggregated_operation.avg_throughput()));
    assert_eq!(2f64 / 1.8, rate_of(aggregated_operation.objects_per_sec()));
    assert_eq!("0.800s", HumanDuration(aggregated_operation.min_duration()).render());
    assert_eq!("1.215s", HumanDuration(aggregated_operation.avg_duration()).render());
    assert_eq!("1.630s", HumanDuration(aggregated_operation.max_duration()).render());
}

#[test]
fn shared_origin_scenario_matches_expected_aggregate() {
    let mut aggregator = Aggregator::new();
    aggregator.insert(op("a", 0, 800, OperationType::Get, 10, ""));
    aggregator.insert(op("b", 170, 1800, OperationType::Get, 30, ""));
    let agg = aggregator.get(OperationType::Get).unwrap();
    assert_eq!(agg.concurrency(), 2);
    assert_eq!(agg.duration(), 1_800_000);
    assert_eq!(agg.total_bytes(), 40);
    assert_eq!(agg.count(), 2);
    assert_eq!(agg.min_duration(), 800_000);
    assert_eq!(agg.max_duration(), 1_630_000);
    assert_eq!(agg.avg_duration(), 1_215_000);
    assert_eq!(agg.avg_throughput().render(), "22.2B/s");
    assert_eq!(agg.objects_per_sec().render(), "1.1");
    assert!(aggregator.get(OperationType::Put).is_none());
}

#[test]
fn every_duration_lies_between_min_and_max() {
    let spans = [(0, 5), (10, 300), (20, 21), (5, 1005), (7, 7)];
    let mut aggregator = Aggregator::new();
    for (i, (s, e)) in spans.iter().enumerate() {
        aggregator.insert(op(&i.to_string(), *s, *e, OperationType::Put, 1, ""));
    }
    let agg = aggregator.get(OperationType::Put).unwrap();
    for (s, e) in spans.iter() {
        let d = ((e - s) * MS) as u64;
        assert!(agg.min_duration() <= d && d <= agg.max_duration());
    }
    assert_eq!(agg.min_duration(), 0);
    assert_eq!(agg.max_duration(), 1_000_000);
    assert!(agg.min_duration() <= agg.avg_duration() && agg.avg_duration() <= agg.max_duration());
}

#[test]
fn failed_record_only_counts_as_error() {
    let mut aggregator = Aggregator::new();
    aggregator.insert(op("w", 0, 100, OperationType::Get, 5, ""));
    let before = aggregator.get(OperationType::Get).unwrap();
    let (bytes, min, max, errors) =
        (before.total_bytes(), before.min_duration(), before.max_duration(), before.errors());
    aggregator.insert(op("x", 0, 5000, OperationType::Get, 999, "timeout"));
    let after = aggregator.get(OperationType::Get).unwrap();
    assert_eq!(after.errors(), errors + 1);
    assert_eq!(after.count(), 2);
    assert_eq!(after.total_bytes(), bytes);
    assert_eq!(after.min_duration(), min);
    assert_eq!(after.max_duration(), max);
    assert_eq!(after.concurrency(), 1);
}

#[test]
fn only_failures_leave_zero_statistics() {
    let mut aggregator = Aggregator::new();
    aggregator.insert(op("x", 0, 5000, OperationType::Delete, 0, "boom"));
    let agg = aggregator.get(OperationType::Delete).unwrap();
    assert_eq!(agg.errors(), 1);
    assert_eq!(agg.duration(), 0);
    assert_eq!(agg.avg_duration(), 0);
    assert_eq!(agg.concurrency(), 0);
    assert_eq!(agg.avg_throughput().render(), "0.0B/s");
    assert_eq!(agg.objects_per_sec().render(), "0.0");
}

#[test]
fn concurrency_counts_distinct_workers_in_any_order() {
    let records = vec![
        op("w1", 0, 10, OperationType::Get, 1, ""),
        op("w2", 5, 30, OperationType::Get, 2, ""),
        op("w1", 40, 45, OperationType::Get, 3, ""),
        op("w3", 1, 2, OperationType::Get, 4, "failed"),
        op("w2", 50, 90, OperationType::Get, 5, ""),
    ];
    let summary = |order: &[usize]| {
        let mut aggregator = Aggregator::new();
        for i in order {
            aggregator.insert(records[*i].clone());
        }
        let a = aggregator.get(OperationType::Get).unwrap();
        (
            a.concurrency(),
            a.count(),
            a.errors(),
            a.total_bytes(),
            a.duration(),
            a.min_duration(),
            a.max_duration(),
            a.avg_duration(),
        )
    };
    let forward = summary(&[0, 1, 2, 3, 4]);
    assert_eq!(forward.0, 2);
    assert_eq!(forward, summary(&[4, 3, 2, 1, 0]));
    assert_eq!(forward, summary(&[2, 0, 4, 1, 3]));
}

#[test]
fn report_lists_each_kind_with_records() {
    let mut aggregator = Aggregator::new();
    aggregator.insert(op("1", 0, 800, OperationType::Get, 10, ""));
    aggregator.insert(op("1", 0, 1000, OperationType::Put, 2048, ""));
    let text = aggregator.display();
    let expected = "----------------------------------------------------\n\
Operation: Get. Concurrency: 1. Duration: 0.800s\n\
Total: 1\n\
Errors: 0\n\
\n\
Averages\n\
* Throughput: 12.5B/s\n\
* Objects/s: 1.2\n\
\n\
Duration Per Operation \n\
* Min: 0.800s\n\
* Avg: 0.800s\n\
* Max: 0.800s\n\
\n\
----------------------------------------------------\n\
Operation: Put. Concurrency: 1. Duration: 1s\n\
Total: 1\n\
Errors: 0\n\
\n\
Averages\n\
* Throughput: 2.0KiB/s\n\
* Objects/s: 1.0\n\
\n\
Duration Per Operation \n\
* Min: 1s\n\
* Avg: 1s\n\
* Max: 1s\n\
\n";
    assert_eq!(text, expected);
}

#[test]
fn throughput_formats_with_binary_prefixes() {
    assert_eq!(Throughput::per_second(1536).render(), "1.5KiB/s");
    assert_eq!(Throughput::per_second(500).render(), "500.0B/s");
    assert_eq!(Throughput::per_second(0).render(), "0.0B/s");
    assert_eq!(Throughput::per_second(1023).render(), "1023.0B/s");
    assert_eq!(Throughput::per_second(1024).render(), "1.0KiB/s");
    assert_eq!(Throughput::per_second(3 << 20).render(), "3.0MiB/s");
    assert_eq!(Throughput::per_second(3 << 30).render(), "3.00GiB/s");
    assert_eq!(Throughput::per_second(5 << 40).render(), "5.00TiB/s");
    assert_eq!(Throughput { bytes: 40, micros: 1_800_000 }.render(), "22.2B/s");
    assert_eq!(Throughput { bytes: 10, micros: 0 }.render(), "0.0B/s");
}

#[test]
fn human_duration_formats() {
    assert_eq!(HumanDuration(0).render(), "0ms");
    assert_eq!(HumanDuration(90_250_000).render(), "1m 30.250s");
    assert_eq!(HumanDuration(999_999).render(), "0.999s");
    assert_eq!(HumanDuration(999).render(), "0ms");
    assert_eq!(HumanDuration(1_000_000).render(), "1s");
    assert_eq!(HumanDuration(5_000_000).render(), "5s");
    assert_eq!(HumanDuration(5_007_000).render(), "5.007s");
    assert_eq!(HumanDuration(3_600_000_000 + 61_000_000).render(), "1h 1m 1.000s");
    assert_eq!(HumanDuration(90_000_000_000 + 5_000).render(), "1d 1h 0m 0.005s");
}

#[test]
fn operation_type_names() {
    assert_eq!(OperationType::Get.name(), "Get");
    assert_eq!(OperationType::Put.name(), "Put");
    assert_eq!(OperationType::List.name(), "List");
    assert_eq!(OperationType::Delete.name(), "Delete");
}

#[test]
fn begin_and_finish_bracket_a_call() {
    let mut o = Operation::begin("w".to_string(), OperationType::Put, "k".to_string(), 7);
    assert!(!o.is_failed());
    o.finish("bad".to_string());
    assert!(o.is_failed());
    assert!(o.end >= o.start);
    assert!(o.start > 0);
    assert_eq!(o.size, 7);
}

#[test]
fn finish_at_takes_the_reading_and_never_ends_before_the_start() {
    let mut o = Operation { start: 1_000, end: 1_000, ..Default::default() };
    o.finish_at(5_500, String::new());
    assert_eq!(o.end, 5_500);
    assert_eq!(o.duration(), 4_500);
    assert!(!o.is_failed());
    let mut late = Operation { start: 9_000, end: 9_000, ..Default::default() };
    late.finish_at(8_000, "clock went back".to_string());
    assert_eq!(late.end, 9_000);
    assert!(late.is_failed());
}

use recall_loader::collector::{Closed, Collector};
use recall_loader::ops::{Operation, OperationType};

fn put(id: &str, error: &str) -> Operation {
    Operation {
        id: id.to_string(),
        start: 10,
        end: 20,
        op_type: OperationType::Put,
        size: 3,
        file: "k".to_string(),
        error: error.to_string(),
    }
}

#[test]
fn test_collect_concurrent() {
    let mut collector = Collector::new();
    let num_tasks = 10;
    let ops_per_task = 100;
    for _ in 0..num_tasks {
        for i in 0..ops_per_task {
            let op = Operation { id: format!("{}", i), ..Default::default() };
            assert!(collector.can_collect(&op));
            assert!(collector.collect(op).is_ok());
        }
    }
    let operations = collector.get_operations();
    assert_eq!(operations.len(), num_tasks * ops_per_task);
}

#[test]
fn collected_records_keep_arrival_order() {
    let mut collector = Collector::new();
    collector.collect(put("a", "")).ok().unwrap();
    collector.collect(put("b", "x")).ok().unwrap();
    let ids: Vec<String> = collector.get_operations().into_iter().map(|o| o.id).collect();
    assert_eq!(ids, vec!["a".to_string(), "b".to_string()]);
}

#[test]
fn close_keeps_everything_and_refuses_more() {
    let mut collector = Collector::new();
    collector.collect(put("a", "")).ok().unwrap();
    collector.close();
    collector.close();
    match collector.collect(put("late", "")) {
        Err(Closed(op)) => assert_eq!(op.id, "late"),
        Ok(()) => panic!("a closed collector took a record"),
    }
    assert_eq!(collector.get_operations().len(), 1);
    let report = collector.display_aggregated();
    assert!(report.starts_with("----------------------------------------------------\nOperation: Put."));
    assert!(report.contains("Total: 1\n"));
}

#[test]
fn report_counts_errors_per_kind() {
    let mut collector = Collector::new();
    for i in 0..5 {
        collector.collect(put(&i.to_string(), "failed")).ok().unwrap();
    }
    let report = collector.display_aggregated();
    assert!(report.contains("Operation: Put. Concurrency: 0. Duration: 0ms\nTotal: 5\nErrors: 5\n"));
    assert!(!report.contains("Operation: Get"));
}

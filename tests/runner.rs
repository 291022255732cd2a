use recall_loader::collector::Collector;
use recall_loader::config::{Broadcast, DownloadTest, Target, TestRunConfig, UploadTest};
use recall_loader::ops::{Operation, OperationType};
use recall_loader::poller::{retry_budget, sample_keys, ConsistencyPoller, PollAction};
use recall_loader::runner::{runner_id, worker_id, Listing, Phase, RunAction, RunError, RunEvent, TestRun};

fn config(blob_count: u32, download: Option<i32>, delete: bool, bucket: Option<&str>) -> TestRunConfig {
    TestRunConfig {
        num_accounts: 1,
        request_funds: None,
        buy_credit: None,
        target: Target::Sdk,
        upload: UploadTest {
            bucket: bucket.map(|b| b.to_string()),
            blob_count,
            prefix: "foo/".to_string(),
            blob_size: 64,
            overwrite: true,
            broadcast_mode: Broadcast::Commit,
        },
        download: download.map(DownloadTest::new),
        delete,
    }
}

#[test]
fn all_uploads_failing_ends_without_objects() {
    let mut run = TestRun::new(config(5, Some(4), true, None));
    let mut collector = Collector::new();
    let mut action = run.handle(RunEvent::Start);
    assert_eq!(action, RunAction::CreateBucket);
    action = run.handle(RunEvent::BucketReady);
    let mut uploads = 0;
    loop {
        match action {
            RunAction::Upload { key, size } => {
                uploads += 1;
                let mut op = Operation::begin("0-w".to_string(), OperationType::Put, key, size);
                op.finish("upload rejected".to_string());
                collector.collect(op).ok().unwrap();
                action = run.handle(RunEvent::UploadFailed);
            }
            RunAction::Resync => action = run.handle(RunEvent::Resynced),
            other => {
                assert_eq!(other, RunAction::Fail(RunError::NoObjectsUploaded));
                break;
            }
        }
    }
    assert_eq!(uploads, 5);
    assert_eq!(run.current_phase(), Phase::Done);
    let ops = collector.get_operations();
    assert_eq!(ops.len(), 5);
    assert!(ops.iter().all(|o| o.op_type == OperationType::Put && !o.error.is_empty()));
    assert!(!ops.iter().any(|o| o.op_type == OperationType::Get || o.op_type == OperationType::Delete));
}

#[test]
fn full_run_uploads_waits_downloads_and_deletes() {
    let mut run = TestRun::new(config(3, Some(2), true, Some("t2xyz")));
    assert_eq!(run.handle(RunEvent::Start), RunAction::AttachBucket("t2xyz".to_string()));
    assert_eq!(
        run.handle(RunEvent::BucketReady),
        RunAction::Upload { key: "foo/0".to_string(), size: 64 }
    );
    assert_eq!(
        run.handle(RunEvent::Uploaded),
        RunAction::Upload { key: "foo/1".to_string(), size: 64 }
    );
    assert_eq!(run.handle(RunEvent::UploadFailed), RunAction::Resync);
    assert_eq!(
        run.handle(RunEvent::Resynced),
        RunAction::Upload { key: "foo/2".to_string(), size: 64 }
    );
    assert_eq!(run.handle(RunEvent::Uploaded), RunAction::WaitForConsistency);
    assert_eq!(run.uploaded_keys(), &vec!["foo/0".to_string(), "foo/2".to_string()]);
    assert_eq!(run.handle(RunEvent::Consistent), RunAction::Download { concurrency: 2 });
    assert_eq!(run.handle(RunEvent::Downloaded), RunAction::Delete("foo/0".to_string()));
    assert_eq!(run.handle(RunEvent::DeleteFailed), RunAction::Delete("foo/2".to_string()));
    assert_eq!(run.handle(RunEvent::Deleted), RunAction::Finish);
    assert_eq!(run.current_phase(), Phase::Done);
}

#[test]
fn failed_setup_fails_the_run() {
    let mut run = TestRun::new(config(3, None, false, None));
    run.handle(RunEvent::Start);
    assert_eq!(run.handle(RunEvent::BucketFailed), RunAction::Fail(RunError::Setup));
}

#[test]
fn run_without_download_or_delete_finishes_after_uploads() {
    let mut run = TestRun::new(config(1, None, false, None));
    run.handle(RunEvent::Start);
    run.handle(RunEvent::BucketReady);
    assert_eq!(run.handle(RunEvent::Uploaded), RunAction::Finish);
}

#[test]
fn sampling_takes_first_middle_last_above_ten() {
    let keys: Vec<String> = (0..11).map(|i| format!("k{}", i)).collect();
    assert_eq!(sample_keys(&keys), vec!["k0".to_string(), "k5".to_string(), "k10".to_string()]);
    let few: Vec<String> = (0..10).map(|i| format!("k{}", i)).collect();
    assert_eq!(sample_keys(&few), few);
}

#[test]
fn weaker_broadcast_gets_more_attempts() {
    assert_eq!(retry_budget(Broadcast::Commit), 10);
    assert!(retry_budget(Broadcast::Sync) > retry_budget(Broadcast::Commit));
    assert!(retry_budget(Broadcast::Async) > retry_budget(Broadcast::Sync));
}

#[test]
fn poller_moves_on_after_success_and_stops_when_exhausted() {
    let keys = vec!["a".to_string(), "b".to_string()];
    let mut poller = ConsistencyPoller::new(&keys, Broadcast::Commit);
    assert_eq!(poller.next(), PollAction::Probe("a".to_string()));
    assert!(!poller.record(true));
    assert_eq!(poller.next(), PollAction::Probe("b".to_string()));
    for _ in 0..9 {
        assert!(poller.record(false));
        assert_eq!(poller.next(), PollAction::Probe("b".to_string()));
    }
    assert!(!poller.timed_out());
    assert!(!poller.record(false));
    assert_eq!(poller.next(), PollAction::Done);
    assert!(poller.timed_out());
}

#[test]
fn ids_join_with_a_dash() {
    assert_eq!(runner_id(3, "0xabc"), "3-0xabc");
    assert_eq!(worker_id("3-0xabc", 12), "3-0xabc-12");
}

#[test]
fn listing_gathers_pages() {
    let mut listing = Listing::new();
    let next = listing.add_page(vec!["a".to_string()], Some(vec![1]));
    assert_eq!(next, Some(vec![1]));
    assert_eq!(listing.add_page(vec!["b".to_string(), "c".to_string()], None), None);
    assert_eq!(listing.page_count(), 2);
    assert_eq!(listing.into_keys(), vec!["a".to_string(), "b".to_string(), "c".to_string()]);
}

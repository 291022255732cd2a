use recall_loader::config::{BasicTestOpts, Broadcast, Network, Target, TestConfig, BASIC_DOWNLOAD_CONCURRENCY};
use recall_loader::identity::{bytes_equal, IdentityRegistry};
use recall_loader::runner::{Listing, NothingToDelete};

#[test]
fn same_key_gets_same_slot() {
    let mut reg = IdentityRegistry::new();
    assert_eq!(reg.lookup_or_register(vec![1, 2, 3]), (0, true));
    assert_eq!(reg.lookup_or_register(vec![9]), (1, true));
    assert_eq!(reg.lookup_or_register(vec![1, 2, 3]), (0, false));
    assert_eq!(reg.lookup(&vec![9]), Some(1));
    assert_eq!(reg.lookup(&vec![1, 2]), None);
}

#[test]
fn byte_equality() {
    assert!(bytes_equal(&vec![], &vec![]));
    assert!(bytes_equal(&vec![4, 5], &vec![4, 5]));
    assert!(!bytes_equal(&vec![4, 5], &vec![4, 6]));
    assert!(!bytes_equal(&vec![4], &vec![4, 5]));
}

#[test]
fn basic_options_make_one_account_run() {
    let opts = BasicTestOpts {
        prefix: "foo".to_string(),
        key: "k".to_string(),
        funder_private_key: "f".to_string(),
        network: None,
        bucket: None,
        buy_credits: Some(3),
        target: Target::Sdk,
        delete: true,
        download: true,
        blob_cnt: 100,
        blob_size: 1,
        broadcast: Broadcast::Sync,
    };
    let cfg = TestConfig::from_basic(opts);
    assert_eq!(cfg.network, Network::Devnet);
    assert_eq!(cfg.funder_private_key, "f");
    assert_eq!(cfg.test.num_accounts, 1);
    assert_eq!(cfg.test.buy_credit, Some(3));
    assert_eq!(cfg.test.upload.blob_count, 100);
    assert!(cfg.test.upload.overwrite);
    assert_eq!(cfg.test.upload.broadcast_mode, Broadcast::Sync);
    assert_eq!(cfg.test.download.unwrap().concurrency(), BASIC_DOWNLOAD_CONCURRENCY);
    assert!(cfg.test.delete);
}

#[test]
fn empty_listing_has_nothing_to_delete() {
    assert_eq!(Listing::new().into_deletions(), Err(NothingToDelete));
    let mut l = Listing::new();
    l.add_page(vec!["a".to_string()], None);
    assert_eq!(l.into_deletions(), Ok(vec!["a".to_string()]));
}

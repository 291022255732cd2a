use recall_loader::config::{
    prefix_normalized, true_bool, Broadcast, DownloadTest, Network, UploadTest,
};
use recall_loader::config::random_payload;

fn upload(prefix: &str) -> UploadTest {
    UploadTest {
        bucket: None,
        blob_count: 1,
        prefix: prefix.to_string(),
        blob_size: 1024,
        overwrite: true_bool(),
        broadcast_mode: Broadcast::default(),
    }
}

#[test]
fn prefix_loses_one_trailing_slash() {
    assert_eq!(prefix_normalized("foo/"), "foo");
    assert_eq!(prefix_normalized("foo"), "foo");
    assert_eq!(prefix_normalized("foo//"), "foo/");
    assert_eq!(prefix_normalized(""), "");
    assert_eq!(prefix_normalized("/"), "");
}

#[test]
fn keys_live_under_the_prefix() {
    assert_eq!(upload("foo/bar").get_key_with_prefix("7"), "foo/bar/7");
    assert_eq!(upload("foo/").get_key_with_prefix("x.txt"), "foo/x.txt");
    assert_eq!(upload("p").blob_key(42), "p/42");
    assert_eq!(upload("p").blob_size_bytes(), 1024);
    assert!(upload("p").overwrite);
    assert_eq!(upload("p").broadcast_mode, Broadcast::Commit);
}

#[test]
fn download_concurrency_is_kept() {
    assert_eq!(DownloadTest::new(8).concurrency(), 8);
}

#[test]
fn network_endpoints_come_from_its_nodes() {
    for _ in 0..20 {
        let url = Network::Localnet.random_rpc_url();
        assert!(["http://localhost:26657", "http://localhost:26757", "http://localhost:26857"]
            .contains(&url.as_str()));
        let url = Network::Testnet.random_objects_api_url();
        assert!(url.starts_with("https://objects.node-"));
    }
    assert_eq!(Network::Devnet.random_rpc_url(), "http://localhost:26657");
    assert_eq!(Network::Devnet.random_objects_api_url(), "http://localhost:8001");
    assert_eq!(Network::Mainnet.chain_id(), 24816);
    assert_eq!(Network::Testnet.chain_id(), 2481632);
    assert_eq!(Network::Localnet.chain_id(), 248163216);
}

#[test]
fn payload_has_requested_size() {
    assert_eq!(random_payload(0).len(), 0);
    let p = random_payload(4096);
    assert_eq!(p.len(), 4096);
    assert!(p.iter().any(|b| *b != 0));
}

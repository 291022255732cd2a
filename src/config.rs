//! Test configuration and the networks a run can target.

use rand::Rng;
use vstd::prelude::*;
use crate::text::{decimal, push_decimal};

verus! {

/// How long a write waits for confirmation before it returns.
#[derive(Debug, Clone, Copy, PartialEq, Eq, Structural, Default)]
pub enum Broadcast {
    /// Return right after the transaction is broadcast.
    Async,
    /// Wait for the check results.
    Sync,
    /// Wait for delivery.
    #[default]
    Commit,
}

/// The kind of client a run drives.
#[derive(Debug, Clone, Copy, PartialEq, Eq, Structural, Default)]
pub enum Target {
    #[default]
    Sdk,
    S3,
}

/// The network a run talks to.
#[derive(Debug, Clone, Copy, PartialEq, Eq, Structural)]
pub enum Network {
    Mainnet,
    Testnet,
    Localnet,
    Devnet,
}

/// Settings of the upload phase.
#[derive(Debug, Clone)]
pub struct UploadTest {
    /// Address of an existing bucket; a new one is created when absent.
    pub bucket: Option<String>,
    /// How many blobs to upload.
    pub blob_count: u32,
    /// Prefix the blobs are stored under (e.g. foo/bar).
    pub prefix: String,
    /// Size of each blob in bytes.
    pub blob_size: i64,
    /// Overwrite an object that already exists.
    pub overwrite: bool,
    /// Broadcast mode of the writes.
    pub broadcast_mode: Broadcast,
}

/// Settings of the download phase.
#[derive(Debug, Clone)]
pub struct DownloadTest {
    concurrency: i32,
}

/// Settings of the query command.
#[derive(Debug, Clone)]
pub struct QueryTest {}

/// One logical benchmark, run once per account.
#[derive(Debug, Clone)]
pub struct TestRunConfig {
    pub num_accounts: i32,
    pub request_funds: Option<u32>,
    pub buy_credit: Option<u32>,
    pub target: Target,
    pub upload: UploadTest,
    pub download: Option<DownloadTest>,
    pub delete: bool,
}

/// The whole configuration of a load test.
#[derive(Debug, Clone)]
pub struct TestConfig {
    pub funder_private_key: String,
    pub network: Network,
    pub test: TestRunConfig,
}

/// `prefix` without one trailing slash.
pub open spec fn normalized(prefix: Seq<char>) -> Seq<char> {
    if prefix.len() > 0 && prefix.last() == '/' {
        prefix.drop_last()
    } else {
        prefix
    }
}

/// The key of `name` under `prefix`.
pub open spec fn key_with_prefix(prefix: Seq<char>, name: Seq<char>) -> Seq<char> {
    normalized(prefix) + seq!['/'] + name
}

/// The prefix with one trailing slash removed, if it has one.
pub fn prefix_normalized(prefix: &str) -> (r: String)
    ensures
        r@ == normalized(prefix@),
{
    let n = prefix.unicode_len();
    if n > 0 && prefix.get_char(n - 1) == '/' {
        String::from_str(prefix.substring_char(0, n - 1))
    } else {
        String::from_str(prefix)
    }
}

/// The default of the overwrite setting.
pub fn true_bool() -> (r: bool)
    ensures
        r,
{
    true
}

impl DownloadTest {
    pub closed spec fn workers(&self) -> i32 {
        self.concurrency
    }

    pub fn new(concurrency: i32) -> (r: DownloadTest)
        ensures
            r.workers() == concurrency,
    {
        DownloadTest { concurrency }
    }

    /// How many downloads run at once.
    pub fn concurrency(&self) -> (r: i32)
        ensures
            r == self.workers(),
    {
        self.concurrency
    }
}

impl UploadTest {
    /// The key of `name` under this test's prefix.
    pub fn get_key_with_prefix(&self, name: &str) -> (r: String)
        ensures
            r@ == key_with_prefix(self.prefix@, name@),
    {
        let mut r = prefix_normalized(self.prefix.as_str());
        r.append("/");
        r.append(name);
        proof {
            reveal_strlit("/");
        }
        r
    }

    /// The key of the `i`-th blob.
    pub fn blob_key(&self, i: u32) -> (r: String)
        ensures
            r@ == key_with_prefix(self.prefix@, decimal(i as nat)),
    {
        let mut name = String::new();
        push_decimal(&mut name, i as u128);
        assert(name@ =~= decimal(i as nat));
        self.get_key_with_prefix(name.as_str())
    }

    /// The size in bytes of each blob.
    pub fn blob_size_bytes(&self) -> (r: i64)
        ensures
            r == self.blob_size,
    {
        self.blob_size
    }
}

pub open spec fn rpc_urls(n: Network) -> Seq<Seq<char>> {
    match n {
        Network::Mainnet => Seq::empty(),
        Network::Testnet => seq![
            "https://api.node-0.testnet.recall.network"@,
            "https://api.node-1.testnet.recall.network"@,
        ],
        Network::Localnet => seq![
            "http://localhost:26657"@,
            "http://localhost:26757"@,
            "http://localhost:26857"@,
        ],
        Network::Devnet => seq!["http://localhost:26657"@],
    }
}

pub open spec fn objects_api_urls(n: Network) -> Seq<Seq<char>> {
    match n {
        Network::Mainnet => Seq::empty(),
        Network::Testnet => seq![
            "https://objects.node-0.testnet.recall.network"@,
            "https://objects.node-1.testnet.recall.network"@,
        ],
        Network::Localnet => seq![
            "http://localhost:8001"@,
            "http://localhost:8002"@,
            "http://localhost:8003"@,
        ],
        Network::Devnet => seq!["http://localhost:8001"@],
    }
}

pub open spec fn chain_id_of(n: Network) -> u64 {
    match n {
        Network::Mainnet => 24816,
        Network::Testnet => 2481632,
        Network::Localnet => 248163216,
        Network::Devnet => 248163216,
    }
}

/// Relies on rand::thread_rng and Rng::gen_range over `0..len`, which yields
/// a value in that range and panics only on an empty one.
#[verifier::external_body]
fn random_below(len: usize) -> (r: usize)
    requires
        len > 0,
    ensures
        r < len,
{
    rand::thread_rng().gen_range(0..len)
}

/// Relies on rand::Rng::fill over a byte slice, which overwrites the bytes in
/// place and keeps the length.
#[verifier::external_body]
fn fill_random(buf: &mut Vec<u8>)
    ensures
        final(buf)@.len() == old(buf)@.len(),
{
    rand::thread_rng().fill(&mut buf[..])
}

/// A payload of `size` random bytes.
pub fn random_payload(size: usize) -> (r: Vec<u8>)
    ensures
        r@.len() == size,
{
    let mut buf: Vec<u8> = Vec::new();
    let mut i: usize = 0;
    while i < size
        invariant
            i <= size,
            buf@.len() == i,
        decreases size - i,
    {
        buf.push(0);
        i += 1;
    }
    fill_random(&mut buf);
    buf
}

fn pick(urls: &Vec<&'static str>) -> (r: String)
    requires
        urls@.len() > 0,
    ensures
        exists|i: int| 0 <= i < urls@.len() && r@ == urls@[i]@,
{
    let i = random_below(urls.len());
    String::from_str(urls[i])
}

impl Network {
    /// Whether the network has known nodes.
    pub open spec fn is_served(self) -> bool {
        self != Network::Mainnet
    }

    /// One of the RPC endpoints of the network, picked at random.
    pub fn random_rpc_url(&self) -> (r: String)
        requires
            self.is_served(),
        ensures
            rpc_urls(*self).contains(r@),
    {
        let urls = match self {
            Network::Testnet => vec![
                "https://api.node-0.testnet.recall.network",
                "https://api.node-1.testnet.recall.network",
            ],
            Network::Localnet => vec![
                "http://localhost:26657",
                "http://localhost:26757",
                "http://localhost:26857",
            ],
            _ => vec!["http://localhost:26657"],
        };
        let r = pick(&urls);
        proof {
            let i = choose|i: int| 0 <= i < urls@.len() && r@ == urls@[i]@;
            assert(rpc_urls(*self)[i] == r@);
        }
        r
    }

    /// One of the object API endpoints of the network, picked at random.
    pub fn random_objects_api_url(&self) -> (r: String)
        requires
            self.is_served(),
        ensures
            objects_api_urls(*self).contains(r@),
    {
        let urls = match self {
            Network::Testnet => vec![
                "https://objects.node-0.testnet.recall.network",
                "https://objects.node-1.testnet.recall.network",
            ],
            Network::Localnet => vec![
                "http://localhost:8001",
                "http://localhost:8002",
                "http://localhost:8003",
            ],
            _ => vec!["http://localhost:8001"],
        };
        let r = pick(&urls);
        proof {
            let i = choose|i: int| 0 <= i < urls@.len() && r@ == urls@[i]@;
            assert(objects_api_urls(*self)[i] == r@);
        }
        r
    }

    /// The chain id of the network.
    pub fn chain_id(&self) -> (r: u64)
        ensures
            r == chain_id_of(*self),
    {
        match self {
            Network::Mainnet => 24816,
            Network::Testnet => 2481632,
            Network::Localnet => 248163216,
            Network::Devnet => 248163216,
        }
    }
}

/// Download concurrency of a run set up from command-line options alone.
pub const BASIC_DOWNLOAD_CONCURRENCY: i32 = 1;

/// The options of a single run given on the command line.
#[derive(Debug, Clone)]
pub struct BasicTestOpts {
    pub prefix: String,
    pub key: String,
    pub funder_private_key: String,
    pub network: Option<Network>,
    pub bucket: Option<String>,
    pub buy_credits: Option<u32>,
    pub target: Target,
    pub delete: bool,
    pub download: bool,
    pub blob_cnt: u32,
    pub blob_size: i64,
    pub broadcast: Broadcast,
}

impl TestConfig {
    /// A one-account configuration from command-line options; the network
    /// defaults to devnet and blobs are overwritten.
    pub fn from_basic(opts: BasicTestOpts) -> (r: TestConfig)
        ensures
            r.funder_private_key == opts.funder_private_key,
            r.network == match opts.network {
                Some(n) => n,
                None => Network::Devnet,
            },
            r.test.num_accounts == 1,
            r.test.request_funds is None,
            r.test.buy_credit == opts.buy_credits,
            r.test.target == opts.target,
            r.test.upload.bucket == opts.bucket,
            r.test.upload.blob_count == opts.blob_cnt,
            r.test.upload.prefix == opts.prefix,
            r.test.upload.blob_size == opts.blob_size,
            r.test.upload.overwrite,
            r.test.upload.broadcast_mode == opts.broadcast,
            r.test.download is Some <==> opts.download,
            r.test.download matches Some(d) ==> d.workers() == BASIC_DOWNLOAD_CONCURRENCY,
            r.test.delete == opts.delete,
    {
        let network = match opts.network {
            Some(n) => n,
            None => Network::Devnet,
        };
        let download = if opts.download {
            Some(DownloadTest::new(BASIC_DOWNLOAD_CONCURRENCY))
        } else {
            None
        };
        TestConfig {
            funder_private_key: opts.funder_private_key,
            network,
            test: TestRunConfig {
                num_accounts: 1,
                request_funds: None,
                buy_credit: opts.buy_credits,
                target: opts.target,
                upload: UploadTest {
                    bucket: opts.bucket,
                    blob_count: opts.blob_cnt,
                    prefix: opts.prefix,
                    blob_size: opts.blob_size,
                    overwrite: true,
                    broadcast_mode: opts.broadcast,
                },
                download,
                delete: opts.delete,
            },
        }
    }
}

} // verus!

//! The decisions of one benchmark run, as a state machine.
//!
//! A run attaches to or creates a bucket, uploads `blob_count` blobs, then
//! optionally waits for them to be readable and downloads them, then
//! optionally deletes them. The machine chooses each next action; the caller
//! performs it against the storage target and reports the outcome as an
//! event. A failed upload is followed by a resynchronisation of the signer's
//! sequence number and the key is left out of the later phases. Only a failed
//! setup and a run without any uploaded blob end in an error.

use vstd::prelude::*;
use crate::config::{key_with_prefix, DownloadTest, TestRunConfig, UploadTest};
use crate::text::{decimal, push_decimal};

verus! {

/// Why a run stopped early.
#[derive(Debug, Clone, Copy, PartialEq, Eq, Structural)]
pub enum RunError {
    /// The bucket could not be attached or created.
    Setup,
    /// Not a single upload succeeded.
    NoObjectsUploaded,
}

/// What the caller does next.
#[derive(Debug, PartialEq, Eq)]
pub enum RunAction {
    /// Attach the bucket at this address.
    AttachBucket(String),
    /// Create a new bucket.
    CreateBucket,
    /// Upload a fresh random payload of `size` bytes under `key`.
    Upload { key: String, size: i64 },
    /// Re-read the signer's sequence number from the service.
    Resync,
    /// Poll until the uploaded keys are readable (see the poller).
    WaitForConsistency,
    /// Download every uploaded key through a pool of `concurrency` workers.
    Download { concurrency: i32 },
    /// Delete this key.
    Delete(String),
    /// The run is over.
    Finish,
    /// The run failed.
    Fail(RunError),
}

/// The outcome of the last action.
#[derive(Debug, Clone, Copy, PartialEq, Eq, Structural)]
pub enum RunEvent {
    Start,
    BucketReady,
    BucketFailed,
    Uploaded,
    UploadFailed,
    Resynced,
    Consistent,
    Downloaded,
    Deleted,
    DeleteFailed,
}

#[derive(Debug, Clone, Copy, PartialEq, Eq, Structural)]
pub enum Phase {
    Idle,
    Setup,
    Uploading,
    Resyncing,
    Waiting,
    Downloading,
    Deleting,
    Done,
}

/// The events that a phase waits for.
pub open spec fn accepts(phase: Phase, ev: RunEvent) -> bool {
    match phase {
        Phase::Idle => ev == RunEvent::Start,
        Phase::Setup => ev == RunEvent::BucketReady || ev == RunEvent::BucketFailed,
        Phase::Uploading => ev == RunEvent::Uploaded || ev == RunEvent::UploadFailed,
        Phase::Resyncing => ev == RunEvent::Resynced,
        Phase::Waiting => ev == RunEvent::Consistent,
        Phase::Downloading => ev == RunEvent::Downloaded,
        Phase::Deleting => ev == RunEvent::Deleted || ev == RunEvent::DeleteFailed,
        Phase::Done => false,
    }
}

pub open spec fn key_views(keys: Seq<String>) -> Seq<Seq<char>> {
    keys.map_values(|k: String| k@)
}

/// What one event does: the action chosen and the progress made.
pub open spec fn transition(before: TestRun, after: TestRun, ev: RunEvent, r: RunAction) -> bool {
    match ev {
        RunEvent::Start => {
            &&& after.same_progress(&before)
            &&& after.phase() == Phase::Setup
            &&& match before.upload_config().bucket {
                Some(b) => r matches RunAction::AttachBucket(a) && a@ == b@,
                None => r == RunAction::CreateBucket,
            }
        },
        RunEvent::BucketFailed => {
            &&& after.same_progress(&before)
            &&& after.phase() == Phase::Done
            &&& r == RunAction::Fail(RunError::Setup)
        },
        RunEvent::BucketReady | RunEvent::Resynced => {
            &&& after.same_progress(&before)
            &&& after.upload_step(r)
        },
        RunEvent::Uploaded => {
            &&& after.keys() == before.keys().push(before.upload_key(before.next_upload()))
            &&& after.next_upload() == before.next_upload() + 1
            &&& after.next_delete() == before.next_delete()
            &&& after.upload_step(r)
        },
        RunEvent::UploadFailed => {
            &&& after.keys() == before.keys()
            &&& after.next_upload() == before.next_upload() + 1
            &&& after.next_delete() == before.next_delete()
            &&& after.phase() == Phase::Resyncing
            &&& r == RunAction::Resync
        },
        RunEvent::Consistent => {
            &&& after.same_progress(&before)
            &&& after.phase() == Phase::Downloading
            &&& r == RunAction::Download { concurrency: before.download_config().unwrap().workers() }
        },
        RunEvent::Downloaded => {
            &&& after.same_progress(&before)
            &&& after.delete_step(r)
        },
        RunEvent::Deleted | RunEvent::DeleteFailed => {
            &&& after.keys() == before.keys()
            &&& after.next_upload() == before.next_upload()
            &&& after.next_delete() == before.next_delete() + 1
            &&& after.delete_step(r)
        },
    }
}

pub struct TestRun {
    upload: UploadTest,
    download: Option<DownloadTest>,
    delete: bool,
    phase: Phase,
    next_upload: u32,
    keys: Vec<String>,
    next_delete: usize,
}

impl TestRun {
    pub closed spec fn upload_config(&self) -> UploadTest {
        self.upload
    }

    pub closed spec fn download_config(&self) -> Option<DownloadTest> {
        self.download
    }

    pub closed spec fn deletes(&self) -> bool {
        self.delete
    }

    pub closed spec fn phase(&self) -> Phase {
        self.phase
    }

    /// Index of the next blob to upload.
    pub closed spec fn next_upload(&self) -> nat {
        self.next_upload as nat
    }

    /// Keys uploaded successfully, in order.
    pub closed spec fn keys(&self) -> Seq<Seq<char>> {
        key_views(self.keys@)
    }

    /// Index of the next key to delete.
    pub closed spec fn next_delete(&self) -> nat {
        self.next_delete as nat
    }

    pub closed spec fn wf(&self) -> bool {
        &&& self.next_upload <= self.upload.blob_count
        &&& self.keys@.len() <= self.next_upload
        &&& self.next_delete <= self.keys@.len()
        &&& self.phase == Phase::Uploading ==> self.next_upload < self.upload.blob_count
        &&& self.phase == Phase::Deleting ==> self.next_delete < self.keys@.len()
        &&& self.phase == Phase::Waiting ==> self.download is Some
    }

    /// The same upload, download and delete progress as `other`.
    pub open spec fn same_progress(&self, other: &TestRun) -> bool {
        &&& self.next_upload() == other.next_upload()
        &&& self.keys() == other.keys()
        &&& self.next_delete() == other.next_delete()
    }

    /// The key of the `i`-th blob.
    pub open spec fn upload_key(&self, i: nat) -> Seq<char> {
        key_with_prefix(self.upload_config().prefix@, decimal(i))
    }

    /// The same settings and progress as `other`.
    pub open spec fn same_plan(&self, other: &TestRun) -> bool {
        &&& self.upload_config() == other.upload_config()
        &&& self.download_config() == other.download_config()
        &&& self.deletes() == other.deletes()
    }

    /// From this state: delete the next key if deletes are on and keys are
    /// left, else finish.
    pub open spec fn delete_step(&self, r: RunAction) -> bool {
        if self.deletes() && self.next_delete() < self.keys().len() {
            &&& self.phase() == Phase::Deleting
            &&& r matches RunAction::Delete(k) && k@ == self.keys()[self.next_delete() as int]
        } else {
            self.phase() == Phase::Done && r == RunAction::Finish
        }
    }

    /// From this state, once the uploads are over: fail when none succeeded,
    /// wait for consistency when downloads are on, else go to the deletes.
    pub open spec fn after_uploads_step(&self, r: RunAction) -> bool {
        if self.keys().len() == 0 {
            self.phase() == Phase::Done && r == RunAction::Fail(RunError::NoObjectsUploaded)
        } else if self.download_config() is Some {
            self.phase() == Phase::Waiting && r == RunAction::WaitForConsistency
        } else {
            self.delete_step(r)
        }
    }

    /// From this state: upload the next blob if one is left, else end the
    /// uploads.
    pub open spec fn upload_step(&self, r: RunAction) -> bool {
        if self.next_upload() < self.upload_config().blob_count {
            &&& self.phase() == Phase::Uploading
            &&& r matches RunAction::Upload { key, size } && key@ == self.upload_key(
                self.next_upload(),
            ) && size == self.upload_config().blob_size
        } else {
            self.after_uploads_step(r)
        }
    }

    /// A run that has not started.
    pub fn new(test: TestRunConfig) -> (r: TestRun)
        ensures
            r.wf(),
            r.phase() == Phase::Idle,
            r.upload_config() == test.upload,
            r.download_config() == test.download,
            r.deletes() == test.delete,
            r.next_upload() == 0,
            r.keys().len() == 0,
            r.next_delete() == 0,
    {
        TestRun {
            upload: test.upload,
            download: test.download,
            delete: test.delete,
            phase: Phase::Idle,
            next_upload: 0,
            keys: Vec::new(),
            next_delete: 0,
        }
    }
}

impl TestRun {
    fn delete_or_finish(&mut self) -> (r: RunAction)
        requires
            old(self).next_upload <= old(self).upload.blob_count,
            old(self).keys@.len() <= old(self).next_upload,
            old(self).next_delete <= old(self).keys@.len(),
        ensures
            final(self).wf(),
            final(self).same_plan(old(self)),
            final(self).same_progress(old(self)),
            final(self).delete_step(r),
    {
        if self.delete && self.next_delete < self.keys.len() {
            self.phase = Phase::Deleting;
            RunAction::Delete(self.keys[self.next_delete].clone())
        } else {
            self.phase = Phase::Done;
            RunAction::Finish
        }
    }

    fn end_uploads(&mut self) -> (r: RunAction)
        requires
            old(self).next_upload <= old(self).upload.blob_count,
            old(self).keys@.len() <= old(self).next_upload,
            old(self).next_delete <= old(self).keys@.len(),
        ensures
            final(self).wf(),
            final(self).same_plan(old(self)),
            final(self).same_progress(old(self)),
            final(self).after_uploads_step(r),
    {
        if self.keys.len() == 0 {
            self.phase = Phase::Done;
            RunAction::Fail(RunError::NoObjectsUploaded)
        } else if self.download.is_some() {
            self.phase = Phase::Waiting;
            RunAction::WaitForConsistency
        } else {
            self.delete_or_finish()
        }
    }

    fn upload_or_end(&mut self) -> (r: RunAction)
        requires
            old(self).next_upload <= old(self).upload.blob_count,
            old(self).keys@.len() <= old(self).next_upload,
            old(self).next_delete <= old(self).keys@.len(),
        ensures
            final(self).wf(),
            final(self).same_plan(old(self)),
            final(self).same_progress(old(self)),
            final(self).upload_step(r),
    {
        if self.next_upload < self.upload.blob_count {
            self.phase = Phase::Uploading;
            let key = self.upload.blob_key(self.next_upload);
            RunAction::Upload { key, size: self.upload.blob_size }
        } else {
            self.end_uploads()
        }
    }

    /// Takes the outcome of the last action and chooses the next one.
    pub fn handle(&mut self, ev: RunEvent) -> (r: RunAction)
        requires
            old(self).wf(),
            accepts(old(self).phase(), ev),
        ensures
            final(self).wf(),
            final(self).same_plan(old(self)),
            transition(*old(self), *final(self), ev, r),
    {
        match ev {
            RunEvent::Start => {
                self.phase = Phase::Setup;
                match &self.upload.bucket {
                    Some(b) => RunAction::AttachBucket(b.clone()),
                    None => RunAction::CreateBucket,
                }
            },
            RunEvent::BucketFailed => {
                self.phase = Phase::Done;
                RunAction::Fail(RunError::Setup)
            },
            RunEvent::BucketReady | RunEvent::Resynced => self.upload_or_end(),
            RunEvent::Uploaded => {
                let key = self.upload.blob_key(self.next_upload);
                let ghost before = self.keys@;
                self.keys.push(key);
                self.next_upload += 1;
                proof {
                    assert(self.keys@.map_values(|k: String| k@) =~= before.map_values(
                        |k: String| k@,
                    ).push(key@));
                }
                self.upload_or_end()
            },
            RunEvent::UploadFailed => {
                self.next_upload += 1;
                self.phase = Phase::Resyncing;
                RunAction::Resync
            },
            RunEvent::Consistent => {
                self.phase = Phase::Downloading;
                let concurrency = match &self.download {
                    Some(d) => d.concurrency(),
                    None => 0,
                };
                RunAction::Download { concurrency }
            },
            RunEvent::Downloaded => self.delete_or_finish(),
            RunEvent::Deleted | RunEvent::DeleteFailed => {
                self.next_delete += 1;
                self.delete_or_finish()
            },
        }
    }

    /// The current phase.
    pub fn current_phase(&self) -> (r: Phase)
        ensures
            r == self.phase(),
    {
        self.phase
    }

    /// The keys uploaded successfully, in order.
    pub fn uploaded_keys(&self) -> (r: &Vec<String>)
        ensures
            key_views(r@) == self.keys(),
    {
        &self.keys
    }
}

/// A failed upload adds no key; once every blob was tried and none made it,
/// the next action is the failure for want of objects.
pub proof fn lemma_all_uploads_failed(before: TestRun, after: TestRun, r: RunAction)
    requires
        transition(before, after, RunEvent::UploadFailed, r) || transition(
            before,
            after,
            RunEvent::Resynced,
            r,
        ),
    ensures
        after.keys() == before.keys(),
        after.next_upload() >= after.upload_config().blob_count && after.keys().len() == 0
            && after.phase() != Phase::Resyncing ==> r == RunAction::Fail(
            RunError::NoObjectsUploaded,
        ) && after.phase() == Phase::Done,
{
}

/// The id of the `i`-th run: its index, a dash, then the account address.
pub fn runner_id(i: u32, address: &str) -> (r: String)
    ensures
        r@ == decimal(i as nat) + "-"@ + address@,
{
    let mut r = String::new();
    push_decimal(&mut r, i as u128);
    r.append("-");
    r.append(address);
    r
}

/// The id of worker `i` of a run's download pool.
pub fn worker_id(thread_id: &str, i: u32) -> (r: String)
    ensures
        r@ == thread_id@ + "-"@ + decimal(i as nat),
{
    let mut r = String::from_str(thread_id);
    r.append("-");
    push_decimal(&mut r, i as u128);
    r
}

/// A cleanup found no key under its prefix.
#[derive(Debug, Clone, Copy, PartialEq, Eq, Structural)]
pub struct NothingToDelete;

/// The keys of a paginated listing, gathered page by page.
pub struct Listing {
    keys: Vec<String>,
    pages: usize,
}

impl Listing {
    pub closed spec fn keys(&self) -> Seq<String> {
        self.keys@
    }

    /// Pages received.
    pub closed spec fn pages(&self) -> nat {
        self.pages as nat
    }

    pub fn new() -> (r: Listing)
        ensures
            r.keys() == Seq::<String>::empty(),
            r.pages() == 0,
    {
        Listing { keys: Vec::new(), pages: 0 }
    }

    /// Appends one page and returns the token of the next page to ask for;
    /// none means the listing is complete.
    pub fn add_page(&mut self, page: Vec<String>, next: Option<Vec<u8>>) -> (r: Option<Vec<u8>>)
        requires
            old(self).pages() < usize::MAX,
        ensures
            final(self).keys() == old(self).keys() + page@,
            final(self).pages() == old(self).pages() + 1,
            r == next,
    {
        let mut page = page;
        self.keys.append(&mut page);
        self.pages += 1;
        next
    }

    /// The keys gathered so far, in listing order.
    pub fn into_keys(self) -> (r: Vec<String>)
        ensures
            r@ == self.keys(),
    {
        self.keys
    }

    /// The keys to delete in a cleanup: every listed key, or an error when
    /// the listing found nothing.
    pub fn into_deletions(self) -> (r: Result<Vec<String>, NothingToDelete>)
        ensures
            self.keys().len() == 0 <==> r is Err,
            r matches Ok(v) ==> v@ == self.keys(),
    {
        if self.keys.len() == 0 {
            Err(NothingToDelete)
        } else {
            Ok(self.keys)
        }
    }

    pub fn page_count(&self) -> (r: usize)
        ensures
            r as nat == self.pages(),
    {
        self.pages
    }
}

} // verus!

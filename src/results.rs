//! Per-run timings by object key, and the per-stage summaries derived from
//! them.

use vstd::prelude::*;
use crate::ops::round_half_even;

verus! {

/// The stage of a run that an object went through.
#[derive(Debug, Clone, Copy, PartialEq, Eq, Structural)]
pub enum Stage {
    Upload,
    Download,
    Delete,
}

/// The durations, in microseconds, measured for one key: at most one per
/// stage.
#[derive(Debug, Clone)]
pub struct KeyTimes {
    pub key: String,
    pub upload: Option<u64>,
    pub download: Option<u64>,
    pub delete: Option<u64>,
}

pub open spec fn stage_time(t: KeyTimes, stage: Stage) -> Option<u64> {
    match stage {
        Stage::Upload => t.upload,
        Stage::Download => t.download,
        Stage::Delete => t.delete,
    }
}

/// The durations of one stage over the entries, in entry order.
pub open spec fn stage_durations(es: Seq<KeyTimes>, stage: Stage) -> Seq<nat>
    decreases es.len(),
{
    if es.len() == 0 {
        Seq::empty()
    } else {
        let init = stage_durations(es.drop_last(), stage);
        match stage_time(es.last(), stage) {
            Some(d) => init.push(d as nat),
            None => init,
        }
    }
}

pub open spec fn seq_sum(s: Seq<nat>) -> nat
    decreases s.len(),
{
    if s.len() == 0 {
        0
    } else {
        seq_sum(s.drop_last()) + s.last()
    }
}

/// The smallest element; zero for an empty sequence.
pub open spec fn seq_min(s: Seq<nat>) -> nat
    decreases s.len(),
{
    if s.len() == 0 {
        0
    } else if s.len() == 1 || s.last() < seq_min(s.drop_last()) {
        s.last()
    } else {
        seq_min(s.drop_last())
    }
}

/// The largest element; zero for an empty sequence.
pub open spec fn seq_max(s: Seq<nat>) -> nat
    decreases s.len(),
{
    if s.len() == 0 {
        0
    } else if s.last() > seq_max(s.drop_last()) {
        s.last()
    } else {
        seq_max(s.drop_last())
    }
}

/// Durations of one stage, in microseconds.
#[derive(Debug, Clone, Copy, PartialEq, Eq, Structural)]
pub struct TimeInfo {
    pub avg: u64,
    pub count: u64,
    pub min: u64,
    pub max: u64,
    pub total: u128,
}

/// What one stage of a run moved and how long it took.
#[derive(Debug, Clone, Copy, PartialEq, Eq, Structural)]
pub struct BucketStats {
    pub count: u64,
    pub total_bytes: u64,
    pub time: TimeInfo,
}

/// Megabits per second over the summed durations, in hundredths; zero when
/// no time was spent.
pub open spec fn mbps_hundredths(total_bytes: nat, total_micros: nat) -> nat {
    if total_micros == 0 {
        0
    } else {
        round_half_even(total_bytes * 800, total_micros)
    }
}

/// Megabytes per second, an eighth of the megabits, in hundredths; zero when
/// no time was spent.
pub open spec fn mbytes_hundredths(total_bytes: nat, total_micros: nat) -> nat {
    if total_micros == 0 {
        0
    } else {
        round_half_even(total_bytes * 100, total_micros)
    }
}

impl BucketStats {
    /// Megabits per second, in hundredths.
    pub fn mbps(&self) -> (r: u128)
        requires
            self.time.total < 0x8000_0000_0000_0000_0000_0000_0000_0000,
        ensures
            r as nat == mbps_hundredths(self.total_bytes as nat, self.time.total as nat),
    {
        if self.time.total == 0 {
            0
        } else {
            crate::ops::rounded_div(self.total_bytes as u128 * 800, self.time.total)
        }
    }

    /// Megabytes per second, in hundredths.
    pub fn mbytes_per_sec(&self) -> (r: u128)
        requires
            self.time.total < 0x8000_0000_0000_0000_0000_0000_0000_0000,
        ensures
            r as nat == mbytes_hundredths(self.total_bytes as nat, self.time.total as nat),
    {
        if self.time.total == 0 {
            0
        } else {
            crate::ops::rounded_div(self.total_bytes as u128 * 100, self.time.total)
        }
    }
}

/// The timings of one run, one entry per key.
pub struct TestResult {
    entries: Vec<KeyTimes>,
}

pub open spec fn key_of(t: KeyTimes) -> Seq<char> {
    t.key@
}

pub open spec fn with_stage(t: KeyTimes, stage: Stage, micros: u64) -> KeyTimes {
    match stage {
        Stage::Upload => KeyTimes { upload: Some(micros), ..t },
        Stage::Download => KeyTimes { download: Some(micros), ..t },
        Stage::Delete => KeyTimes { delete: Some(micros), ..t },
    }
}

pub open spec fn fresh_times(key: String) -> KeyTimes {
    KeyTimes { key, upload: None, download: None, delete: None }
}

/// The entry of `key` gets the duration of `stage`: updated in place when the
/// key is present, appended otherwise.
pub open spec fn recorded(
    before: Seq<KeyTimes>,
    after: Seq<KeyTimes>,
    key: String,
    stage: Stage,
    micros: u64,
) -> bool {
    if exists|i: int| 0 <= i < before.len() && key_of(before[i]) == key@ {
        let i = choose|i: int| 0 <= i < before.len() && key_of(before[i]) == key@;
        after == before.update(i, with_stage(before[i], stage, micros))
    } else {
        after == before.push(with_stage(fresh_times(key), stage, micros))
    }
}

impl TestResult {
    /// The entries, in order of first appearance of their key.
    pub closed spec fn entries(&self) -> Seq<KeyTimes> {
        self.entries@
    }

    pub open spec fn wf(&self) -> bool {
        forall|i: int, j: int|
            0 <= i < j < self.entries().len() ==> key_of(#[trigger] self.entries()[i]) != key_of(
                #[trigger] self.entries()[j],
            )
    }

    pub fn new() -> (r: TestResult)
        ensures
            r.wf(),
            r.entries() == Seq::<KeyTimes>::empty(),
    {
        TestResult { entries: Vec::new() }
    }

    /// Number of keys with a timing.
    pub fn len(&self) -> (r: usize)
        ensures
            r == self.entries().len(),
    {
        self.entries.len()
    }

    /// Sets the duration of `stage` for `key`, adding the key if it is new.
    pub fn record(&mut self, key: String, stage: Stage, micros: u64)
        requires
            old(self).wf(),
        ensures
            final(self).wf(),
            recorded(old(self).entries(), final(self).entries(), key, stage, micros),
    {
        let mut i: usize = 0;
        while i < self.entries.len()
            invariant
                i <= self.entries@.len(),
                self.entries@ == old(self).entries@,
                old(self).wf(),
                forall|j: int| 0 <= j < i ==> key_of(#[trigger] self.entries@[j]) != key@,
            decreases self.entries@.len() - i,
        {
            if self.entries[i].key == key {
                proof {
                    let k = choose|k: int|
                        0 <= k < old(self).entries@.len() && key_of(old(self).entries@[k]) == key@;
                    if k != i {
                        if k < i {
                            assert(key_of(self.entries@[k]) != key@);
                        } else {
                            assert(key_of(old(self).entries()[i as int]) != key_of(
                                old(self).entries()[k],
                            ));
                        }
                    }
                }
                let mut t = self.entries[i].clone_times();
                match stage {
                    Stage::Upload => t.upload = Some(micros),
                    Stage::Download => t.download = Some(micros),
                    Stage::Delete => t.delete = Some(micros),
                }
                self.entries.set(i, t);
                proof {
                    assert forall|a: int, b: int|
                        0 <= a < b < self.entries@.len() implies key_of(
                        #[trigger] self.entries@[a],
                    ) != key_of(#[trigger] self.entries@[b]) by {
                        assert(key_of(self.entries@[a]) == key_of(old(self).entries@[a]));
                        assert(key_of(self.entries@[b]) == key_of(old(self).entries@[b]));
                        assert(key_of(old(self).entries()[a]) != key_of(old(self).entries()[b]));
                    }
                }
                return;
            }
            i += 1;
        }
        let fresh = KeyTimes { key, upload: None, download: None, delete: None };
        let t = match stage {
            Stage::Upload => KeyTimes { upload: Some(micros), ..fresh },
            Stage::Download => KeyTimes { download: Some(micros), ..fresh },
            Stage::Delete => KeyTimes { delete: Some(micros), ..fresh },
        };
        self.entries.push(t);
        proof {
            assert forall|a: int, b: int|
                0 <= a < b < self.entries@.len() implies key_of(#[trigger] self.entries@[a])
                != key_of(#[trigger] self.entries@[b]) by {
                if b == self.entries@.len() - 1 {
                    assert(key_of(self.entries@[a]) == key_of(old(self).entries@[a]));
                } else {
                    assert(self.entries@[a] == old(self).entries@[a]);
                    assert(self.entries@[b] == old(self).entries@[b]);
                    assert(key_of(old(self).entries()[a]) != key_of(old(self).entries()[b]));
                }
            }
        }
    }

    /// The summary of one stage for objects of `blob_size` bytes.
    pub fn stats(&self, stage: Stage, blob_size: u64) -> (r: BucketStats)
        requires
            blob_size as nat * self.entries().len() <= u64::MAX,
        ensures
            r.count as nat == stage_durations(self.entries(), stage).len(),
            r.total_bytes as nat == r.count as nat * blob_size as nat,
            r.time.count == r.count,
            r.time.total as nat == seq_sum(stage_durations(self.entries(), stage)),
            r.time.min as nat == seq_min(stage_durations(self.entries(), stage)),
            r.time.max as nat == seq_max(stage_durations(self.entries(), stage)),
            r.time.avg as nat == if r.count == 0 {
                0
            } else {
                r.time.total as nat / r.count as nat
            },
    {
        let mut count: u64 = 0;
        let mut total: u128 = 0;
        let mut min: u64 = 0;
        let mut max: u64 = 0;
        let mut i: usize = 0;
        while i < self.entries.len()
            invariant
                i <= self.entries@.len(),
                count as nat == stage_durations(self.entries@.subrange(0, i as int), stage).len(),
                count <= i,
                total as nat == seq_sum(stage_durations(self.entries@.subrange(0, i as int), stage)),
                total <= count as nat * 0xffff_ffff_ffff_ffff,
                min as nat == seq_min(stage_durations(self.entries@.subrange(0, i as int), stage)),
                max as nat == seq_max(stage_durations(self.entries@.subrange(0, i as int), stage)),
                min <= max,
            decreases self.entries@.len() - i,
        {
            let ghost prefix = self.entries@.subrange(0, i as int);
            assert(self.entries@.subrange(0, i + 1).drop_last() =~= prefix);
            let t = match stage {
                Stage::Upload => self.entries[i].upload,
                Stage::Download => self.entries[i].download,
                Stage::Delete => self.entries[i].delete,
            };
            let ghost next = self.entries@.subrange(0, i + 1);
            assert(next.last() == self.entries@[i as int]);
            if let Some(d) = t {
                let ghost ds = stage_durations(prefix, stage);
                assert(stage_durations(next, stage) == ds.push(d as nat));
                assert(ds.push(d as nat).drop_last() =~= ds);
                if count == 0 || d < min {
                    min = d;
                }
                if d > max {
                    max = d;
                }
                proof {
                    assert((count as nat + 1) * 0xffff_ffff_ffff_ffff == count as nat
                        * 0xffff_ffff_ffff_ffff + 0xffff_ffff_ffff_ffff) by (nonlinear_arith);
                    assert(count < 0xffff_ffff_ffff_ffff_u64);
                    assert(count as nat * 0xffff_ffff_ffff_ffff < 0xffff_ffff_ffff_ffff
                        * 0xffff_ffff_ffff_ffff) by (nonlinear_arith)
                        requires
                            count < 0xffff_ffff_ffff_ffff_u64,
                    ;
                }
                total = total + d as u128;
                count = count + 1;
            }
            i += 1;
        }
        assert(self.entries@.subrange(0, i as int) =~= self.entries@);
        proof {
            assert(count as nat * blob_size as nat <= self.entries@.len() * blob_size as nat)
                by (nonlinear_arith)
                requires
                    count <= self.entries@.len(),
            ;
            assert(blob_size as nat * self.entries@.len() == self.entries@.len() * blob_size as nat)
                by (nonlinear_arith);
        }
        let avg = if count == 0 {
            0
        } else {
            proof {
                assert(total as nat / count as nat <= 0xffff_ffff_ffff_ffff) by (nonlinear_arith)
                    requires
                        count > 0,
                        total <= count as nat * 0xffff_ffff_ffff_ffff,
                ;
            }
            (total / count as u128) as u64
        };
        BucketStats {
            count,
            total_bytes: count * blob_size,
            time: TimeInfo { avg, count, min, max, total },
        }
    }
}

impl KeyTimes {
    /// A copy of the entry.
    pub fn clone_times(&self) -> (r: KeyTimes)
        ensures
            r == *self,
    {
        KeyTimes {
            key: self.key.clone(),
            upload: self.upload,
            download: self.download,
            delete: self.delete,
        }
    }
}

} // verus!

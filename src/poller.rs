//! Waiting until written objects can be read back.
//!
//! A few keys stand for all of them: the first, middle and last once there
//! are more than ten, else every key. Each is probed until it is found, with
//! a fixed pause after a miss and a bounded number of attempts per key. Once
//! a key runs out of attempts the wait ends anyway: the download phase then
//! counts whatever still fails as ordinary failures.

use vstd::prelude::*;
use crate::config::Broadcast;

verus! {

/// Pause after a missed probe, in milliseconds.
pub const PROBE_DELAY_MS: u64 = 2000;

/// Above this many keys only three are sampled.
pub const SAMPLE_THRESHOLD: usize = 10;

/// The keys that are probed.
pub open spec fn sampled(keys: Seq<String>) -> Seq<String> {
    if keys.len() > 10 {
        seq![keys[0], keys[(keys.len() / 2) as int], keys[keys.len() - 1]]
    } else {
        keys
    }
}

/// Attempts per key: more when writes return before they are confirmed.
pub open spec fn budget_of(mode: Broadcast) -> u32 {
    match mode {
        Broadcast::Commit => 10,
        Broadcast::Sync => 20,
        Broadcast::Async => 30,
    }
}

/// The first, middle and last key when there are more than ten, else all.
pub fn sample_keys(keys: &Vec<String>) -> (r: Vec<String>)
    ensures
        r@ == sampled(keys@),
{
    let n = keys.len();
    if n > SAMPLE_THRESHOLD {
        let r = vec![keys[0].clone(), keys[n / 2].clone(), keys[n - 1].clone()];
        assert(r@ =~= sampled(keys@));
        r
    } else {
        let mut r: Vec<String> = Vec::new();
        let mut i: usize = 0;
        while i < n
            invariant
                i <= n,
                n == keys@.len(),
                r@ == keys@.subrange(0, i as int),
            decreases n - i,
        {
            r.push(keys[i].clone());
            i += 1;
            assert(r@ =~= keys@.subrange(0, i as int));
        }
        assert(r@ =~= keys@);
        r
    }
}

/// Attempts per key for writes made in `mode`.
pub fn retry_budget(mode: Broadcast) -> (r: u32)
    ensures
        r == budget_of(mode),
        r >= 1,
{
    match mode {
        Broadcast::Commit => 10,
        Broadcast::Sync => 20,
        Broadcast::Async => 30,
    }
}

/// What the poller asks for next.
#[derive(Debug, PartialEq, Eq)]
pub enum PollAction {
    /// Try a minimal read of this key.
    Probe(String),
    /// Stop waiting.
    Done,
}

/// Progress through the sampled keys.
pub struct ConsistencyPoller {
    keys: Vec<String>,
    index: usize,
    attempts_left: u32,
    budget: u32,
    timed_out: bool,
}

impl ConsistencyPoller {
    pub closed spec fn keys(&self) -> Seq<String> {
        self.keys@
    }

    /// The key being probed, as an index into `keys`.
    pub closed spec fn index(&self) -> nat {
        self.index as nat
    }

    pub closed spec fn attempts_left(&self) -> nat {
        self.attempts_left as nat
    }

    pub closed spec fn budget(&self) -> nat {
        self.budget as nat
    }

    /// Whether a key ran out of attempts.
    pub closed spec fn gave_up(&self) -> bool {
        self.timed_out
    }

    pub open spec fn is_done(&self) -> bool {
        self.index() >= self.keys().len()
    }

    pub closed spec fn wf(&self) -> bool {
        &&& self.index <= self.keys@.len()
        &&& self.budget >= 1
        &&& self.index < self.keys@.len() ==> 1 <= self.attempts_left <= self.budget
    }

    /// A poller over the sample of `keys`, with the budget of `mode`.
    pub fn new(keys: &Vec<String>, mode: Broadcast) -> (r: ConsistencyPoller)
        ensures
            r.wf(),
            r.keys() == sampled(keys@),
            r.index() == 0,
            r.budget() == budget_of(mode),
            r.attempts_left() == budget_of(mode),
            !r.gave_up(),
    {
        let budget = retry_budget(mode);
        ConsistencyPoller {
            keys: sample_keys(keys),
            index: 0,
            attempts_left: budget,
            budget,
            timed_out: false,
        }
    }

    /// The next probe, or the end of the wait.
    pub fn next(&self) -> (r: PollAction)
        requires
            self.wf(),
        ensures
            self.is_done() ==> r == PollAction::Done,
            !self.is_done() ==> r == PollAction::Probe(self.keys()[self.index() as int]),
    {
        if self.index < self.keys.len() {
            PollAction::Probe(self.keys[self.index].clone())
        } else {
            PollAction::Done
        }
    }

    /// Takes the outcome of the probe of the current key. Returns whether to
    /// pause `PROBE_DELAY_MS` before the next probe.
    pub fn record(&mut self, found: bool) -> (pause: bool)
        requires
            old(self).wf(),
            !old(self).is_done(),
        ensures
            final(self).wf(),
            final(self).keys() == old(self).keys(),
            final(self).budget() == old(self).budget(),
            found ==> !pause,
            found ==> final(self).index() == old(self).index() + 1,
            found ==> final(self).attempts_left() == old(self).budget(),
            !found && old(self).attempts_left() > 1 ==> pause,
            !found && old(self).attempts_left() > 1 ==> final(self).index() == old(self).index(),
            !found && old(self).attempts_left() > 1 ==> final(self).attempts_left() == old(self).attempts_left() - 1,
            !found && old(self).attempts_left() <= 1 ==> !pause && final(self).is_done(),
            final(self).gave_up() == (old(self).gave_up() || (!found && old(self).attempts_left()
                <= 1)),
    {
        let n = self.keys.len();
        if found {
            self.index += 1;
            self.attempts_left = self.budget;
            false
        } else if self.attempts_left > 1 {
            self.attempts_left -= 1;
            true
        } else {
            self.index = n;
            self.timed_out = true;
            false
        }
    }
}

impl ConsistencyPoller {
    /// Whether the wait ended because a key ran out of attempts.
    pub fn timed_out(&self) -> (r: bool)
        ensures
            r == self.gave_up(),
    {
        self.timed_out
    }
}

} // verus!

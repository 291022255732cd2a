//! Running per-kind statistics over operation records.

use vstd::prelude::*;
use crate::ops::{kind_name, per_second_text, throughput_text, Operation, OperationType, Rate, Throughput};
use crate::text::{decimal, padded, push_decimal, push_padded};

verus! {

/// The mathematical state of one kind's statistics.
pub struct AggState {
    /// Records seen, failed ones included.
    pub count: nat,
    /// Failed records seen.
    pub errors: nat,
    /// Bytes over successful records.
    pub total_bytes: nat,
    /// Summed duration, in microseconds, over successful records.
    pub total_duration: nat,
    pub min_duration: Option<nat>,
    pub max_duration: Option<nat>,
    /// Earliest start and latest end over successful records.
    pub span_start: Option<int>,
    pub span_end: Option<int>,
    /// Worker ids of successful records.
    pub workers: Set<Seq<char>>,
}

pub open spec fn empty_state() -> AggState {
    AggState {
        count: 0,
        errors: 0,
        total_bytes: 0,
        total_duration: 0,
        min_duration: None,
        max_duration: None,
        span_start: None,
        span_end: None,
        workers: Set::empty(),
    }
}

pub open spec fn lower(o: Option<int>, v: int) -> int {
    match o {
        None => v,
        Some(m) => if m < v { m } else { v },
    }
}

pub open spec fn upper(o: Option<int>, v: int) -> int {
    match o {
        None => v,
        Some(m) => if m > v { m } else { v },
    }
}

pub open spec fn nat_opt(o: Option<nat>) -> Option<int> {
    match o {
        None => None,
        Some(v) => Some(v as int),
    }
}

/// The state after one more record: a failed record only counts; a
/// successful one also feeds bytes, durations, span and workers.
pub open spec fn step(s: AggState, op: Operation) -> AggState {
    if op.failed() {
        AggState { count: s.count + 1, errors: s.errors + 1, ..s }
    } else {
        let d = op.spec_duration();
        AggState {
            count: s.count + 1,
            errors: s.errors,
            total_bytes: s.total_bytes + op.size as nat,
            total_duration: s.total_duration + d,
            min_duration: Some(lower(nat_opt(s.min_duration), d as int) as nat),
            max_duration: Some(upper(nat_opt(s.max_duration), d as int) as nat),
            span_start: Some(lower(s.span_start, op.start as int)),
            span_end: Some(upper(s.span_end, op.end as int)),
            workers: s.workers.insert(op.id@),
        }
    }
}

/// The state after a sequence of records, from the empty state.
pub open spec fn fold(rs: Seq<Operation>) -> AggState
    decreases rs.len(),
{
    if rs.len() == 0 {
        empty_state()
    } else {
        step(fold(rs.drop_last()), rs.last())
    }
}

pub open spec fn successes(s: AggState) -> nat {
    (s.count - s.errors) as nat
}

/// Wall-clock span from the earliest start to the latest end; zero before
/// any success.
pub open spec fn span(s: AggState) -> nat {
    match (s.span_start, s.span_end) {
        (Some(a), Some(b)) => if b >= a { (b - a) as nat } else { 0 },
        _ => 0,
    }
}

/// Mean duration of successful records, rounded down; zero before any.
pub open spec fn avg_duration(s: AggState) -> nat {
    if successes(s) > 0 {
        s.total_duration / successes(s)
    } else {
        0
    }
}

pub open spec fn min_of(s: AggState) -> nat {
    match s.min_duration {
        Some(v) => v,
        None => 0,
    }
}

pub open spec fn max_of(s: AggState) -> nat {
    match s.max_duration {
        Some(v) => v,
        None => 0,
    }
}

/// Whether `op` can be added without a counter leaving its machine range.
pub open spec fn has_room(s: AggState, op: Operation) -> bool {
    &&& s.count < u64::MAX
    &&& !op.failed() ==> s.total_bytes + op.size <= u64::MAX && s.total_duration
        + op.spec_duration() <= u64::MAX
}

/// Statistics of one operation kind.
pub struct AggregatedOperation {
    start_time: i64,
    end_time: i64,
    min_duration: u64,
    max_duration: u64,
    errors: u64,
    n: u64,
    total_duration: u64,
    total_bytes: u64,
    threads: Vec<String>,
}

impl AggregatedOperation {
    pub closed spec fn worker_ids(&self) -> Seq<Seq<char>> {
        self.threads@.map_values(|t: String| t@)
    }

    pub closed spec fn view(&self) -> AggState {
        let ok = self.n > self.errors;
        AggState {
            count: self.n as nat,
            errors: self.errors as nat,
            total_bytes: self.total_bytes as nat,
            total_duration: self.total_duration as nat,
            min_duration: if ok { Some(self.min_duration as nat) } else { None },
            max_duration: if ok { Some(self.max_duration as nat) } else { None },
            span_start: if ok { Some(self.start_time as int) } else { None },
            span_end: if ok { Some(self.end_time as int) } else { None },
            workers: self.worker_ids().to_set(),
        }
    }

    pub closed spec fn wf(&self) -> bool {
        &&& self.errors <= self.n
        &&& self.worker_ids().no_duplicates()
        &&& self.n > self.errors ==> self.start_time <= self.end_time
    }

    /// Fresh statistics with no record.
    pub fn new() -> (r: AggregatedOperation)
        ensures
            r.wf(),
            r.view() == empty_state(),
    {
        let r = AggregatedOperation {
            start_time: 0,
            end_time: 0,
            min_duration: 0,
            max_duration: 0,
            errors: 0,
            n: 0,
            total_duration: 0,
            total_bytes: 0,
            threads: Vec::new(),
        };
        assert(r.worker_ids().to_set() =~= Set::empty());
        r
    }

    fn has_worker(&self, id: &String) -> (r: bool)
        ensures
            r == self.worker_ids().contains(id@),
    {
        let mut i: usize = 0;
        while i < self.threads.len()
            invariant
                0 <= i <= self.threads@.len(),
                forall|j: int| 0 <= j < i ==> self.worker_ids()[j] != id@,
            decreases self.threads@.len() - i,
        {
            if self.threads[i] == *id {
                assert(self.worker_ids()[i as int] == id@);
                return true;
            }
            i += 1;
        }
        false
    }

    /// Adds one record.
    pub fn insert(&mut self, operation: Operation)
        requires
            old(self).wf(),
            operation.wf(),
            has_room(old(self).view(), operation),
        ensures
            final(self).wf(),
            final(self).view() == step(old(self).view(), operation),
    {
        let first = self.n == self.errors;
        self.n += 1;
        if operation.is_failed() {
            self.errors += 1;
            assert(self.worker_ids() == old(self).worker_ids());
            return;
        }
        let d = operation.duration();
        self.total_bytes += operation.size as u64;
        self.total_duration += d;
        if !self.has_worker(&operation.id) {
            let ghost ids = self.worker_ids();
            self.threads.push(operation.id);
            proof {
                assert(self.worker_ids() =~= ids.push(operation.id@));
                ids.lemma_push_to_set_commute(operation.id@);
            }
        } else {
            proof {
                assert(self.worker_ids().to_set() =~= self.worker_ids().to_set().insert(
                    operation.id@,
                ));
            }
        }
        if first {
            self.start_time = operation.start;
            self.end_time = operation.end;
            self.min_duration = d;
            self.max_duration = d;
        } else {
            if operation.start < self.start_time {
                self.start_time = operation.start;
            }
            if operation.end > self.end_time {
                self.end_time = operation.end;
            }
            if d < self.min_duration {
                self.min_duration = d;
            }
            if d > self.max_duration {
                self.max_duration = d;
            }
        }
    }
}

impl AggregatedOperation {
    /// Records seen, failed ones included.
    pub fn count(&self) -> (r: u64)
        ensures
            r as nat == self.view().count,
    {
        self.n
    }

    /// Failed records seen.
    pub fn errors(&self) -> (r: u64)
        ensures
            r as nat == self.view().errors,
    {
        self.errors
    }

    /// Bytes moved by successful records.
    pub fn total_bytes(&self) -> (r: u64)
        ensures
            r as nat == self.view().total_bytes,
    {
        self.total_bytes
    }

    /// Wall-clock span of the successful records, in microseconds.
    pub fn duration(&self) -> (r: u64)
        requires
            self.wf(),
        ensures
            r as nat == span(self.view()),
    {
        if self.n > self.errors {
            (self.end_time as i128 - self.start_time as i128) as u64
        } else {
            0
        }
    }

    /// Bytes of the successful records over their span.
    pub fn avg_throughput(&self) -> (r: Throughput)
        requires
            self.wf(),
        ensures
            r.bytes as nat == self.view().total_bytes,
            r.micros as nat == span(self.view()),
    {
        Throughput { bytes: self.total_bytes, micros: self.duration() }
    }

    /// All records, failed ones included, over the span of the successful ones.
    pub fn objects_per_sec(&self) -> (r: Rate)
        requires
            self.wf(),
        ensures
            r.amount as nat == self.view().count,
            r.micros as nat == span(self.view()),
    {
        Rate { amount: self.n, micros: self.duration() }
    }

    /// Number of distinct workers with a successful record.
    pub fn concurrency(&self) -> (r: u64)
        requires
            self.wf(),
        ensures
            r as nat == self.view().workers.len(),
    {
        proof {
            self.worker_ids().unique_seq_to_set();
        }
        self.threads.len() as u64
    }

    /// Shortest successful duration; zero before any.
    pub fn min_duration(&self) -> (r: u64)
        ensures
            r as nat == min_of(self.view()),
    {
        if self.n > self.errors {
            self.min_duration
        } else {
            0
        }
    }

    /// Longest successful duration; zero before any.
    pub fn max_duration(&self) -> (r: u64)
        ensures
            r as nat == max_of(self.view()),
    {
        if self.n > self.errors {
            self.max_duration
        } else {
            0
        }
    }

    /// Mean successful duration, rounded down; zero before any.
    pub fn avg_duration(&self) -> (r: u64)
        requires
            self.wf(),
        ensures
            r as nat == avg_duration(self.view()),
    {
        if self.n > self.errors {
            self.total_duration / (self.n - self.errors)
        } else {
            0
        }
    }
}

/// The worker ids of the successful records among `rs`.
pub open spec fn successful_ids(rs: Seq<Operation>) -> Set<Seq<char>> {
    Set::new(|w: Seq<char>| exists|i: int| 0 <= i < rs.len() && !rs[i].failed() && rs[i].id@ == w)
}

/// Adding two records gives the same state in either order.
pub proof fn lemma_step_commutes(s: AggState, x: Operation, y: Operation)
    ensures
        step(step(s, x), y) == step(step(s, y), x),
{
    if !x.failed() && !y.failed() {
        assert(s.workers.insert(x.id@).insert(y.id@) =~= s.workers.insert(y.id@).insert(x.id@));
    }
}

/// Folding a sequence equals folding it without its `j`-th record and then
/// adding that record last.
pub proof fn lemma_fold_move_to_end(rs: Seq<Operation>, j: int)
    requires
        0 <= j < rs.len(),
    ensures
        fold(rs) == step(fold(rs.remove(j)), rs[j]),
    decreases rs.len(),
{
    if j == rs.len() - 1 {
        assert(rs.remove(j) =~= rs.drop_last());
    } else {
        let init = rs.drop_last();
        let last = rs.last();
        lemma_fold_move_to_end(init, j);
        assert(rs.remove(j) =~= init.remove(j).push(last));
        assert(rs.remove(j).drop_last() =~= init.remove(j));
        lemma_step_commutes(fold(init.remove(j)), rs[j], last);
    }
}

/// The aggregate does not depend on the order of arrival: two sequences
/// holding the same records, each as many times, fold to the same state.
pub proof fn lemma_fold_permutation(a: Seq<Operation>, b: Seq<Operation>)
    requires
        a.to_multiset() == b.to_multiset(),
    ensures
        fold(a) == fold(b),
    decreases a.len(),
{
    broadcast use vstd::seq_lib::group_to_multiset_ensures;

    if a.len() == 0 {
        assert(b.to_multiset().len() == 0);
        assert(b.len() == 0);
        assert(a =~= b);
    } else {
        let x = a.last();
        let init = a.drop_last();
        assert(a =~= init.push(x));
        assert(a.to_multiset().count(x) > 0);
        assert(b.contains(x));
        let j = choose|j: int| 0 <= j < b.len() && b[j] == x;
        vstd::seq_lib::to_multiset_remove(b, j);
        vstd::seq_lib::to_multiset_build(init, x);
        assert(init.to_multiset() =~= b.remove(j).to_multiset());
        lemma_fold_permutation(init, b.remove(j));
        lemma_fold_move_to_end(b, j);
    }
}

/// The workers of the aggregate are exactly the ids of the successful records.
pub proof fn lemma_workers_are_successful_ids(rs: Seq<Operation>)
    ensures
        fold(rs).workers == successful_ids(rs),
    decreases rs.len(),
{
    if rs.len() == 0 {
        assert(successful_ids(rs) =~= Set::empty());
    } else {
        let init = rs.drop_last();
        lemma_workers_are_successful_ids(init);
        assert forall|w: Seq<char>| #[trigger]
            successful_ids(rs).contains(w) implies fold(rs).workers.contains(w) by {
            let i = choose|i: int| 0 <= i < rs.len() && !rs[i].failed() && rs[i].id@ == w;
            if i < rs.len() - 1 {
                assert(init[i] == rs[i]);
                assert(successful_ids(init).contains(w));
            }
        }
        assert forall|w: Seq<char>| #[trigger]
            fold(rs).workers.contains(w) implies successful_ids(rs).contains(w) by {
            if fold(init).workers.contains(w) {
                let i = choose|i: int|
                    0 <= i < init.len() && !init[i].failed() && init[i].id@ == w;
                assert(rs[i] == init[i]);
            } else {
                assert(rs[rs.len() - 1].id@ == w);
            }
        }
        assert(fold(rs).workers =~= successful_ids(rs));
    }
}

/// A failed record raises the record and error counts by one and leaves the
/// byte total, the durations, the span and the workers as they were.
pub proof fn lemma_failed_record_counts_only(s: AggState, op: Operation)
    requires
        op.failed(),
    ensures
        step(s, op).count == s.count + 1,
        step(s, op).errors == s.errors + 1,
        step(s, op).total_bytes == s.total_bytes,
        step(s, op).total_duration == s.total_duration,
        step(s, op).min_duration == s.min_duration,
        step(s, op).max_duration == s.max_duration,
        step(s, op).span_start == s.span_start,
        step(s, op).span_end == s.span_end,
        step(s, op).workers == s.workers,
{
}

proof fn lemma_successful_fold(rs: Seq<Operation>)
    requires
        forall|i: int| 0 <= i < rs.len() ==> (#[trigger] rs[i]).wf() && !rs[i].failed(),
    ensures
        fold(rs).count == rs.len(),
        fold(rs).errors == 0,
        rs.len() == 0 <==> fold(rs).min_duration is None,
        rs.len() == 0 <==> fold(rs).max_duration is None,
        rs.len() > 0 ==> {
            let s = fold(rs);
            &&& forall|i: int|
                0 <= i < rs.len() ==> min_of(s) <= (#[trigger] rs[i]).spec_duration() <= max_of(
                    s,
                )
            &&& rs.len() * min_of(s) <= s.total_duration <= rs.len() * max_of(s)
        },
    decreases rs.len(),
{
    if rs.len() > 0 {
        let init = rs.drop_last();
        assert forall|i: int| 0 <= i < init.len() implies (#[trigger] init[i]).wf()
            && !init[i].failed() by {
            assert(init[i] == rs[i]);
        }
        lemma_successful_fold(init);
        let p = fold(init);
        let s = fold(rs);
        let d = rs.last().spec_duration();
        let n = init.len();
        if n > 0 {
            let lo = min_of(s);
            let hi = max_of(s);
            assert(lo <= min_of(p) && lo <= d);
            assert(hi >= max_of(p) && hi >= d);
            assert(n * lo <= n * min_of(p)) by (nonlinear_arith)
                requires
                    lo <= min_of(p),
            ;
            assert(n * max_of(p) <= n * hi) by (nonlinear_arith)
                requires
                    max_of(p) <= hi,
            ;
            assert((n + 1) * lo == n * lo + lo) by (nonlinear_arith);
            assert((n + 1) * hi == n * hi + hi) by (nonlinear_arith);
            assert forall|i: int| 0 <= i < rs.len() implies min_of(s) <= (
            #[trigger] rs[i]).spec_duration() <= max_of(s) by {
                if i < n {
                    assert(init[i] == rs[i]);
                }
            }
            assert(s.total_duration == p.total_duration + d);
            assert(n * lo <= p.total_duration);
            assert(rs.len() * lo <= s.total_duration);
            assert(rs.len() * hi >= s.total_duration);
        } else {
            assert(rs.len() == 1);
            assert(min_of(s) == d);
            assert(max_of(s) == d);
            assert(s.total_duration == d);
            assert(rs[0] == rs.last());
            assert(rs.len() * d == d);
            assert forall|i: int| 0 <= i < rs.len() implies min_of(s) <= (
            #[trigger] rs[i]).spec_duration() <= max_of(s) by {
                assert(i == 0);
            }
        }
    }
}

/// Over a non-empty run of successful records, every duration lies between
/// the minimum and the maximum, and so does the mean.
pub proof fn lemma_duration_bounds(rs: Seq<Operation>)
    requires
        rs.len() >= 1,
        forall|i: int| 0 <= i < rs.len() ==> (#[trigger] rs[i]).wf() && !rs[i].failed(),
    ensures
        forall|i: int|
            0 <= i < rs.len() ==> min_of(fold(rs)) <= (#[trigger] rs[i]).spec_duration()
                <= max_of(fold(rs)),
        min_of(fold(rs)) <= avg_duration(fold(rs)) <= max_of(fold(rs)),
{
    lemma_successful_fold(rs);
    let s = fold(rs);
    let n = rs.len();
    assert(successes(s) == n);
    let lo = min_of(s);
    let hi = max_of(s);
    let t = s.total_duration;
    assert(lo <= t / n <= hi) by (nonlinear_arith)
        requires
            n > 0,
            n * lo <= t <= n * hi,
    {
        vstd::arithmetic::div_mod::lemma_fundamental_div_mod(t as int, n as int);
    }
}

/// Text of a duration in microseconds: `0ms` when it has no whole
/// millisecond, else seconds with milliseconds, then minutes, hours and days
/// as they are needed.
pub open spec fn human_duration(us: nat) -> Seq<char> {
    let secs = us / 1_000_000;
    let ms = (us % 1_000_000) / 1000;
    let frac = "."@ + padded(ms, 3) + "s"@;
    let minutes = secs / 60;
    let hours = minutes / 60;
    if secs == 0 && ms == 0 {
        "0ms"@
    } else if secs < 60 {
        if ms > 0 {
            decimal(secs) + frac
        } else {
            decimal(secs) + "s"@
        }
    } else if minutes < 60 {
        decimal(minutes) + "m "@ + decimal(secs % 60) + frac
    } else if hours < 24 {
        decimal(hours) + "h "@ + decimal(minutes % 60) + "m "@ + decimal(secs % 60) + frac
    } else {
        decimal(hours / 24) + "d "@ + decimal(hours % 24) + "h "@ + decimal(minutes % 60) + "m "@
            + decimal(secs % 60) + frac
    }
}

/// A duration in microseconds, shown for people.
#[derive(Clone, Copy, Debug, PartialEq, Eq, Structural)]
pub struct HumanDuration(pub u64);

impl HumanDuration {
    pub fn render(&self) -> (r: String)
        ensures
            r@ == human_duration(self.0 as nat),
    {
        let us = self.0;
        let secs = us / 1_000_000;
        let ms = (us % 1_000_000) / 1000;
        let minutes = secs / 60;
        let hours = minutes / 60;
        let mut s = String::new();
        if secs == 0 && ms == 0 {
            s.append("0ms");
            return s;
        }
        if secs < 60 {
            push_decimal(&mut s, secs as u128);
            if ms > 0 {
                s.append(".");
                push_padded(&mut s, ms as u128, 3);
            }
            s.append("s");
            return s;
        }
        if minutes < 60 {
            push_decimal(&mut s, minutes as u128);
            s.append("m ");
        } else if hours < 24 {
            push_decimal(&mut s, hours as u128);
            s.append("h ");
            push_decimal(&mut s, (minutes % 60) as u128);
            s.append("m ");
        } else {
            push_decimal(&mut s, (hours / 24) as u128);
            s.append("d ");
            push_decimal(&mut s, (hours % 24) as u128);
            s.append("h ");
            push_decimal(&mut s, (minutes % 60) as u128);
            s.append("m ");
        }
        push_decimal(&mut s, (secs % 60) as u128);
        s.append(".");
        push_padded(&mut s, ms as u128, 3);
        s.append("s");
        s
    }
}

/// The records of one kind, in arrival order.
pub open spec fn of_kind(rs: Seq<Operation>, kind: OperationType) -> Seq<Operation> {
    rs.filter(kind_is(kind))
}

/// Whether a record is of `kind`.
pub open spec fn kind_is(kind: OperationType) -> spec_fn(Operation) -> bool {
    |r: Operation| r.op_type == kind
}

/// The statistics of one kind over a sequence of records; none when no
/// record of that kind is among them.
pub open spec fn aggregate(rs: Seq<Operation>, kind: OperationType) -> Option<AggState> {
    if of_kind(rs, kind).len() == 0 {
        None
    } else {
        Some(fold(of_kind(rs, kind)))
    }
}

/// The statistics of one kind after one more record of any kind.
pub open spec fn after_insert(
    entry: Option<AggState>,
    kind: OperationType,
    op: Operation,
) -> Option<AggState> {
    if op.op_type == kind {
        Some(
            step(
                match entry {
                    Some(s) => s,
                    None => empty_state(),
                },
                op,
            ),
        )
    } else {
        entry
    }
}

/// Aggregating one more record updates the statistics of its kind alone.
pub proof fn lemma_aggregate_push(rs: Seq<Operation>, op: Operation, kind: OperationType)
    ensures
        aggregate(rs.push(op), kind) == after_insert(aggregate(rs, kind), kind, op),
{
    rs.lemma_filter_push(op, kind_is(kind));
    if op.op_type == kind {
        assert(of_kind(rs.push(op), kind).drop_last() =~= of_kind(rs, kind));
        if of_kind(rs, kind).len() == 0 {
            assert(of_kind(rs, kind) =~= Seq::empty());
        }
    }
}

/// When every record is of one kind, the statistics of that kind are the
/// fold of all of them.
pub proof fn lemma_single_kind_aggregate(rs: Seq<Operation>, kind: OperationType)
    requires
        rs.len() >= 1,
        forall|i: int| 0 <= i < rs.len() ==> (#[trigger] rs[i]).op_type == kind,
    ensures
        aggregate(rs, kind) == Some(fold(rs)),
{
    lemma_of_kind_all(rs, kind);
}

proof fn lemma_of_kind_all(rs: Seq<Operation>, kind: OperationType)
    requires
        forall|i: int| 0 <= i < rs.len() ==> (#[trigger] rs[i]).op_type == kind,
    ensures
        of_kind(rs, kind) == rs,
    decreases rs.len(),
{
    if rs.len() > 0 {
        let init = rs.drop_last();
        assert forall|i: int| 0 <= i < init.len() implies (#[trigger] init[i]).op_type == kind by {
            assert(init[i] == rs[i]);
        }
        lemma_of_kind_all(init, kind);
        init.lemma_filter_push(rs.last(), kind_is(kind));
        assert(init.push(rs.last()) =~= rs);
    } else {
        assert(of_kind(rs, kind) =~= rs);
    }
}

proof fn lemma_of_kind_counts(rs: Seq<Operation>, kind: OperationType)
    ensures
        forall|v: Operation| #[trigger]
            of_kind(rs, kind).to_multiset().count(v) == if v.op_type == kind {
                rs.to_multiset().count(v)
            } else {
                0
            },
    decreases rs.len(),
{
    broadcast use vstd::seq_lib::group_to_multiset_ensures;

    if rs.len() == 0 {
        assert(of_kind(rs, kind) =~= Seq::empty());
    } else {
        let init = rs.drop_last();
        let x = rs.last();
        lemma_of_kind_counts(init, kind);
        init.lemma_filter_push(x, kind_is(kind));
        assert(init.push(x) =~= rs);
        assert(rs.to_multiset() =~= init.to_multiset().insert(x));
        if x.op_type == kind {
            assert(of_kind(rs, kind) == of_kind(init, kind).push(x));
            assert(of_kind(rs, kind).to_multiset() =~= of_kind(init, kind).to_multiset().insert(x));
        } else {
            assert(of_kind(rs, kind) == of_kind(init, kind));
        }
    }
}

/// The statistics of every kind do not depend on the order of arrival: two
/// sequences holding the same records, each as many times, aggregate alike.
pub proof fn lemma_aggregate_permutation(a: Seq<Operation>, b: Seq<Operation>, kind: OperationType)
    requires
        a.to_multiset() == b.to_multiset(),
    ensures
        aggregate(a, kind) == aggregate(b, kind),
{
    broadcast use vstd::seq_lib::group_to_multiset_ensures;

    lemma_of_kind_counts(a, kind);
    lemma_of_kind_counts(b, kind);
    assert(of_kind(a, kind).to_multiset() =~= of_kind(b, kind).to_multiset());
    assert(of_kind(a, kind).len() == of_kind(a, kind).to_multiset().len());
    assert(of_kind(b, kind).len() == of_kind(b, kind).to_multiset().len());
    lemma_fold_permutation(of_kind(a, kind), of_kind(b, kind));
}

/// Among records of all kinds, when every record of `kind` succeeded and at
/// least one arrived, each of their durations lies between the minimum and
/// the maximum of that kind, and so does the mean.
pub proof fn lemma_kind_duration_bounds(rs: Seq<Operation>, kind: OperationType)
    requires
        exists|i: int| 0 <= i < rs.len() && rs[i].op_type == kind,
        forall|i: int|
            0 <= i < rs.len() && (#[trigger] rs[i]).op_type == kind ==> rs[i].wf()
                && !rs[i].failed(),
    ensures
        aggregate(rs, kind) is Some,
        forall|i: int|
            0 <= i < rs.len() && (#[trigger] rs[i]).op_type == kind ==> min_of(
                aggregate(rs, kind).unwrap(),
            ) <= rs[i].spec_duration() <= max_of(aggregate(rs, kind).unwrap()),
        min_of(aggregate(rs, kind).unwrap()) <= avg_duration(aggregate(rs, kind).unwrap())
            <= max_of(aggregate(rs, kind).unwrap()),
{
    let ks = of_kind(rs, kind);
    let i0 = choose|i: int| 0 <= i < rs.len() && rs[i].op_type == kind;
    rs.lemma_filter_contains(kind_is(kind), i0);
    assert(ks.len() >= 1);
    assert forall|j: int| 0 <= j < ks.len() implies (#[trigger] ks[j]).wf() && !ks[j].failed() by {
        rs.lemma_filter_pred(kind_is(kind), j);
        assert(ks.contains(ks[j]));
        rs.lemma_filter_contains_rev(kind_is(kind), ks[j]);
    }
    lemma_duration_bounds(ks);
    assert forall|i: int|
        0 <= i < rs.len() && (#[trigger] rs[i]).op_type == kind implies min_of(
        aggregate(rs, kind).unwrap(),
    ) <= rs[i].spec_duration() <= max_of(aggregate(rs, kind).unwrap()) by {
        rs.lemma_filter_contains(kind_is(kind), i);
    }
}

/// Statistics per operation kind, one slot for each kind.
pub struct Aggregator {
    get: Option<AggregatedOperation>,
    put: Option<AggregatedOperation>,
    list: Option<AggregatedOperation>,
    delete: Option<AggregatedOperation>,
}

pub open spec fn opt_view(o: Option<AggregatedOperation>) -> Option<AggState> {
    match o {
        Some(a) => Some(a.view()),
        None => None,
    }
}

pub open spec fn opt_wf(o: Option<AggregatedOperation>) -> bool {
    match o {
        Some(a) => a.wf(),
        None => true,
    }
}

/// One kind's block of the report.
pub open spec fn block_text(kind: OperationType, s: AggState) -> Seq<char> {
    header_text(kind, s) + averages_text(s) + durations_text(s)
}

pub open spec fn header_text(kind: OperationType, s: AggState) -> Seq<char> {
    "----------------------------------------------------\n"@ + "Operation: "@ + kind_name(kind)
        + ". Concurrency: "@ + decimal(s.workers.len()) + ". Duration: "@ + human_duration(span(s))
        + "\nTotal: "@ + decimal(s.count) + "\nErrors: "@ + decimal(s.errors)
}

pub open spec fn averages_text(s: AggState) -> Seq<char> {
    "\n\nAverages\n* Throughput: "@ + throughput_text(s.total_bytes, span(s))
        + "\n* Objects/s: "@ + per_second_text(s.count, span(s))
}

pub open spec fn durations_text(s: AggState) -> Seq<char> {
    "\n\nDuration Per Operation \n* Min: "@ + human_duration(min_of(s)) + "\n* Avg: "@
        + human_duration(avg_duration(s)) + "\n* Max: "@ + human_duration(max_of(s)) + "\n\n"@
}

pub open spec fn entry_text(kind: OperationType, e: Option<AggState>) -> Seq<char> {
    match e {
        Some(s) => block_text(kind, s),
        None => Seq::empty(),
    }
}

/// The report over a sequence of records.
pub open spec fn records_report(rs: Seq<Operation>) -> Seq<char> {
    entry_text(OperationType::Get, aggregate(rs, OperationType::Get)) + entry_text(
        OperationType::Put,
        aggregate(rs, OperationType::Put),
    ) + entry_text(OperationType::List, aggregate(rs, OperationType::List)) + entry_text(
        OperationType::Delete,
        aggregate(rs, OperationType::Delete),
    )
}

impl Aggregator {
    pub closed spec fn slot(&self, kind: OperationType) -> Option<AggregatedOperation> {
        match kind {
            OperationType::Get => self.get,
            OperationType::Put => self.put,
            OperationType::List => self.list,
            OperationType::Delete => self.delete,
        }
    }

    /// The statistics of `kind`, if a record of that kind arrived.
    pub open spec fn entry(&self, kind: OperationType) -> Option<AggState> {
        opt_view(self.slot(kind))
    }

    pub open spec fn wf(&self) -> bool {
        forall|k: OperationType| #[trigger] opt_wf(self.slot(k))
    }

    /// The whole report: one block per kind that has records, in the order
    /// Get, Put, List, Delete.
    pub open spec fn report(&self) -> Seq<char> {
        entry_text(OperationType::Get, self.entry(OperationType::Get)) + entry_text(
            OperationType::Put,
            self.entry(OperationType::Put),
        ) + entry_text(OperationType::List, self.entry(OperationType::List)) + entry_text(
            OperationType::Delete,
            self.entry(OperationType::Delete),
        )
    }

    /// An aggregator with no record.
    pub fn new() -> (r: Aggregator)
        ensures
            r.wf(),
            forall|k: OperationType| #[trigger] r.entry(k) is None,
    {
        Aggregator { get: None, put: None, list: None, delete: None }
    }

    /// The statistics of one kind, if a record of that kind arrived.
    pub fn get(&self, kind: OperationType) -> (r: Option<&AggregatedOperation>)
        ensures
            match r {
                Some(a) => self.slot(kind) == Some(*a),
                None => self.slot(kind) is None,
            },
    {
        match kind {
            OperationType::Get => self.get.as_ref(),
            OperationType::Put => self.put.as_ref(),
            OperationType::List => self.list.as_ref(),
            OperationType::Delete => self.delete.as_ref(),
        }
    }

    /// Whether `operation` can be inserted without a counter overflowing.
    pub fn can_insert(&self, operation: &Operation) -> (r: bool)
        requires
            operation.wf(),
        ensures
            r == has_room(
                match self.entry(operation.op_type) {
                    Some(s) => s,
                    None => empty_state(),
                },
                *operation,
            ),
    {
        match self.get(operation.op_type) {
            None => true,
            Some(a) => {
                if a.n == u64::MAX {
                    false
                } else if operation.is_failed() {
                    true
                } else {
                    let d = operation.duration();
                    (u64::MAX - a.total_bytes) as i128 >= operation.size as i128 && u64::MAX
                        - a.total_duration >= d
                }
            },
        }
    }

    /// Adds one record to the statistics of its kind.
    pub fn insert(&mut self, operation: Operation)
        requires
            old(self).wf(),
            operation.wf(),
            has_room(
                match old(self).entry(operation.op_type) {
                    Some(s) => s,
                    None => empty_state(),
                },
                operation,
            ),
        ensures
            final(self).wf(),
            forall|k: OperationType| #[trigger]
                final(self).entry(k) == after_insert(old(self).entry(k), k, operation),
    {
        let ghost kind = operation.op_type;
        assert(opt_wf(self.slot(kind)));
        let slot = match operation.op_type {
            OperationType::Get => &mut self.get,
            OperationType::Put => &mut self.put,
            OperationType::List => &mut self.list,
            OperationType::Delete => &mut self.delete,
        };
        match slot {
            Some(a) => {
                a.insert(operation);
            },
            None => {
                let mut a = AggregatedOperation::new();
                a.insert(operation);
                *slot = Some(a);
            },
        }
        assert(opt_wf(self.slot(kind)));
        assert forall|k: OperationType| #[trigger] opt_wf(self.slot(k)) by {
            if k != kind {
                assert(opt_wf(old(self).slot(k)));
            }
        }
    }

    /// The report text over all kinds with records.
    pub fn display(&self) -> (r: String)
        requires
            self.wf(),
        ensures
            r@ == self.report(),
    {
        let mut s = String::new();
        assert(opt_wf(self.slot(OperationType::Get)));
        assert(opt_wf(self.slot(OperationType::Put)));
        assert(opt_wf(self.slot(OperationType::List)));
        assert(opt_wf(self.slot(OperationType::Delete)));
        push_entry(&mut s, OperationType::Get, &self.get);
        push_entry(&mut s, OperationType::Put, &self.put);
        push_entry(&mut s, OperationType::List, &self.list);
        push_entry(&mut s, OperationType::Delete, &self.delete);
        assert(s@ =~= self.report());
        s
    }
}

fn push_entry(s: &mut String, kind: OperationType, e: &Option<AggregatedOperation>)
    requires
        opt_wf(*e),
    ensures
        final(s)@ == old(s)@ + entry_text(kind, opt_view(*e)),
{
    match e {
        Some(a) => push_block(s, kind, a),
        None => {
            assert(old(s)@ + entry_text(kind, opt_view(*e)) =~= old(s)@);
        },
    }
}

fn push_block(s: &mut String, kind: OperationType, a: &AggregatedOperation)
    requires
        a.wf(),
    ensures
        final(s)@ == old(s)@ + block_text(kind, a.view()),
{
    push_header(s, kind, a);
    push_averages(s, a);
    push_durations(s, a);
    assert(final(s)@ =~= old(s)@ + block_text(kind, a.view()));
}

fn push_header(s: &mut String, kind: OperationType, a: &AggregatedOperation)
    requires
        a.wf(),
    ensures
        final(s)@ == old(s)@ + header_text(kind, a.view()),
{
    s.append("----------------------------------------------------\n");
    s.append("Operation: ");
    s.append(kind.name());
    s.append(". Concurrency: ");
    push_decimal(s, a.concurrency() as u128);
    s.append(". Duration: ");
    s.append(HumanDuration(a.duration()).render().as_str());
    s.append("\nTotal: ");
    push_decimal(s, a.count() as u128);
    s.append("\nErrors: ");
    push_decimal(s, a.errors() as u128);
    assert(final(s)@ =~= old(s)@ + header_text(kind, a.view()));
}

fn push_averages(s: &mut String, a: &AggregatedOperation)
    requires
        a.wf(),
    ensures
        final(s)@ == old(s)@ + averages_text(a.view()),
{
    s.append("\n\nAverages\n* Throughput: ");
    s.append(a.avg_throughput().render().as_str());
    s.append("\n* Objects/s: ");
    s.append(a.objects_per_sec().render().as_str());
    assert(final(s)@ =~= old(s)@ + averages_text(a.view()));
}

fn push_durations(s: &mut String, a: &AggregatedOperation)
    requires
        a.wf(),
    ensures
        final(s)@ == old(s)@ + durations_text(a.view()),
{
    s.append("\n\nDuration Per Operation \n* Min: ");
    s.append(HumanDuration(a.min_duration()).render().as_str());
    s.append("\n* Avg: ");
    s.append(HumanDuration(a.avg_duration()).render().as_str());
    s.append("\n* Max: ");
    s.append(HumanDuration(a.max_duration()).render().as_str());
    s.append("\n\n");
    assert(final(s)@ =~= old(s)@ + durations_text(a.view()));
}

} // verus!

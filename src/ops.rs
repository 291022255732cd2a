//! One measured call against the storage target, and byte-rate formatting.

use vstd::prelude::*;
use crate::text::{decimal, fixed_point, push_fixed_point};

verus! {

/// The kind of object operation that a record measures.
#[derive(Clone, Copy, Debug, PartialEq, Eq, Structural, Hash, Default)]
pub enum OperationType {
    #[default]
    Get,
    Put,
    List,
    Delete,
}

pub open spec fn kind_name(kind: OperationType) -> Seq<char> {
    match kind {
        OperationType::Get => seq!['G', 'e', 't'],
        OperationType::Put => seq!['P', 'u', 't'],
        OperationType::List => seq!['L', 'i', 's', 't'],
        OperationType::Delete => seq!['D', 'e', 'l', 'e', 't', 'e'],
    }
}

impl OperationType {
    /// The display name of the kind.
    pub fn name(&self) -> (r: &'static str)
        ensures
            r@ == kind_name(*self),
    {
        proof {
            reveal_strlit("Get");
            reveal_strlit("Put");
            reveal_strlit("List");
            reveal_strlit("Delete");
        }
        match self {
            OperationType::Get => "Get",
            OperationType::Put => "Put",
            OperationType::List => "List",
            OperationType::Delete => "Delete",
        }
    }
}

/// A measured operation. `start` and `end` are microseconds since the Unix
/// epoch; `error` is empty exactly when the call succeeded.
#[derive(Clone, Debug, Default)]
pub struct Operation {
    pub id: String,
    pub start: i64,
    pub end: i64,
    pub op_type: OperationType,
    pub size: i64,
    pub file: String,
    pub error: String,
}

/// Relies on chrono::Utc::now and DateTime::timestamp_micros: the wall-clock
/// time as microseconds since the Unix epoch. Nothing is known of its value.
#[verifier::external_body]
fn now_micros() -> (r: i64) {
    chrono::Utc::now().timestamp_micros()
}

impl Operation {
    /// A record is well formed when it does not end before it starts and its
    /// payload size is not negative.
    pub open spec fn wf(&self) -> bool {
        self.start <= self.end && self.size >= 0
    }

    pub open spec fn failed(&self) -> bool {
        self.error@.len() > 0
    }

    pub open spec fn spec_duration(&self) -> nat {
        (self.end - self.start) as nat
    }

    /// Elapsed microseconds between start and end.
    pub fn duration(&self) -> (r: u64)
        requires
            self.wf(),
        ensures
            r as nat == self.spec_duration(),
    {
        (self.end as i128 - self.start as i128) as u64
    }

    /// A field-by-field copy.
    pub fn cloned(&self) -> (r: Operation)
        ensures
            r == *self,
    {
        Operation {
            id: self.id.clone(),
            start: self.start,
            end: self.end,
            op_type: self.op_type,
            size: self.size,
            file: self.file.clone(),
            error: self.error.clone(),
        }
    }

    /// Whether the operation failed.
    pub fn is_failed(&self) -> (r: bool)
        ensures
            r == self.failed(),
    {
        !self.error.as_str().is_empty()
    }

    /// Starts a record for a call that begins now.
    pub fn begin(id: String, op_type: OperationType, file: String, size: i64) -> (r: Operation)
        requires
            size >= 0,
        ensures
            r.wf(),
            r.id == id,
            r.op_type == op_type,
            r.file == file,
            r.size == size,
            r.start == r.end,
            !r.failed(),
    {
        let start = now_micros();
        Operation { id, start, end: start, op_type, size, file, error: String::new() }
    }

    /// Closes the record when the call returns, with the error text of a
    /// failed call or an empty one. The end is the clock reading now.
    pub fn finish(&mut self, error: String)
        requires
            old(self).wf(),
        ensures
            final(self).wf(),
            final(self).end >= old(self).start,
            final(self).error == error,
            final(self).id == old(self).id,
            final(self).start == old(self).start,
            final(self).op_type == old(self).op_type,
            final(self).size == old(self).size,
            final(self).file == old(self).file,
    {
        let now = now_micros();
        self.finish_at(now, error);
    }

    /// Closes the record at the clock reading `now` (microseconds since the
    /// Unix epoch). A clock that went backwards never makes the end earlier
    /// than the start.
    pub fn finish_at(&mut self, now: i64, error: String)
        requires
            old(self).wf(),
        ensures
            final(self).wf(),
            final(self).end == if now < old(self).start {
                old(self).start
            } else {
                now
            },
            final(self).error == error,
            final(self).id == old(self).id,
            final(self).start == old(self).start,
            final(self).op_type == old(self).op_type,
            final(self).size == old(self).size,
            final(self).file == old(self).file,
    {
        self.end = if now < self.start { self.start } else { now };
        self.error = error;
    }
}

/// `num / den` rounded to the nearest integer, ties to the even one.
pub open spec fn round_half_even(num: nat, den: nat) -> nat
    recommends
        den > 0,
{
    let q = num / den;
    let r = num % den;
    if 2 * r > den || (2 * r == den && q % 2 == 1) {
        q + 1
    } else {
        q
    }
}

/// Text of a byte rate: B/s below 2^10 bytes per second, then KiB/s, MiB/s
/// with one decimal, GiB/s and TiB/s with two. An empty span reads as zero.
pub open spec fn throughput_text(bytes: nat, micros: nat) -> Seq<char> {
    let per_sec = bytes * 1_000_000;
    if micros == 0 {
        fixed_point(0, 1) + seq!['B', '/', 's']
    } else if per_sec < micros * 1024 {
        fixed_point(round_half_even(per_sec * 10, micros), 1) + seq!['B', '/', 's']
    } else if per_sec < micros * 1048576 {
        fixed_point(round_half_even(per_sec * 10, micros * 1024), 1) + seq!['K', 'i', 'B', '/', 's']
    } else if per_sec < micros * 1073741824 {
        fixed_point(round_half_even(per_sec * 10, micros * 1048576), 1) + seq![
            'M',
            'i',
            'B',
            '/',
            's',
        ]
    } else if per_sec < micros * 1099511627776 {
        fixed_point(round_half_even(per_sec * 100, micros * 1073741824), 2) + seq![
            'G',
            'i',
            'B',
            '/',
            's',
        ]
    } else {
        fixed_point(round_half_even(per_sec * 100, micros * 1099511627776), 2) + seq![
            'T',
            'i',
            'B',
            '/',
            's',
        ]
    }
}

/// Text of an amount per second kept to one decimal; zero for an empty span.
pub open spec fn per_second_text(amount: nat, micros: nat) -> Seq<char> {
    if micros == 0 {
        fixed_point(0, 1)
    } else {
        fixed_point(round_half_even(amount * 10_000_000, micros), 1)
    }
}

/// Exact `round_half_even(num, den)` on machine integers.
pub(crate) fn rounded_div(num: u128, den: u128) -> (r: u128)
    requires
        den > 0,
        num < 0x8000_0000_0000_0000_0000_0000_0000_0000,
        den < 0x8000_0000_0000_0000_0000_0000_0000_0000,
    ensures
        r as nat == round_half_even(num as nat, den as nat),
{
    let q = num / den;
    let r = num % den;
    proof {
        assert(q <= num) by (nonlinear_arith)
            requires
                den > 0,
                q == num / den,
        ;
    }
    if 2 * r > den || (2 * r == den && q % 2 == 1) {
        q + 1
    } else {
        q
    }
}

/// Bytes moved over a span of microseconds.
#[derive(Clone, Copy, Debug, PartialEq, Eq, Structural)]
pub struct Throughput {
    pub bytes: u64,
    pub micros: u64,
}

impl Throughput {
    /// A rate of `bytes_per_sec` bytes each second.
    pub fn per_second(bytes_per_sec: u64) -> (r: Throughput)
        ensures
            r.bytes == bytes_per_sec,
            r.micros == 1_000_000,
    {
        Throughput { bytes: bytes_per_sec, micros: 1_000_000 }
    }

    /// Human-readable rate with a binary prefix.
    pub fn render(&self) -> (r: String)
        ensures
            r@ == throughput_text(self.bytes as nat, self.micros as nat),
    {
        let mut s = String::new();
        let bytes = self.bytes as u128;
        let micros = self.micros as u128;
        let per_sec = bytes * 1_000_000;
        proof {
            reveal_strlit("B/s");
            reveal_strlit("KiB/s");
            reveal_strlit("MiB/s");
            reveal_strlit("GiB/s");
            reveal_strlit("TiB/s");
            crate::text::lemma_pow10_small();
        }
        let k1 = micros * 1024;
        let k2 = micros * 1048576;
        let k3 = micros * 1073741824;
        let k4 = micros * 1099511627776;
        if micros == 0 {
            push_fixed_point(&mut s, 0, 1);
            s.append("B/s");
        } else if per_sec < k1 {
            push_fixed_point(&mut s, rounded_div(per_sec * 10, micros), 1);
            s.append("B/s");
        } else if per_sec < k2 {
            push_fixed_point(&mut s, rounded_div(per_sec * 10, k1), 1);
            s.append("KiB/s");
        } else if per_sec < k3 {
            push_fixed_point(&mut s, rounded_div(per_sec * 10, k2), 1);
            s.append("MiB/s");
        } else if per_sec < k4 {
            push_fixed_point(&mut s, rounded_div(per_sec * 100, k3), 2);
            s.append("GiB/s");
        } else {
            push_fixed_point(&mut s, rounded_div(per_sec * 100, k4), 2);
            s.append("TiB/s");
        }
        s
    }
}

/// A count of events over a span of microseconds.
#[derive(Clone, Copy, Debug, PartialEq, Eq, Structural)]
pub struct Rate {
    pub amount: u64,
    pub micros: u64,
}

impl Rate {
    /// The rate per second with one decimal.
    pub fn render(&self) -> (r: String)
        ensures
            r@ == per_second_text(self.amount as nat, self.micros as nat),
    {
        let mut s = String::new();
        proof {
            crate::text::lemma_pow10_small();
        }
        if self.micros == 0 {
            push_fixed_point(&mut s, 0, 1);
        } else {
            push_fixed_point(
                &mut s,
                rounded_div(self.amount as u128 * 10_000_000, self.micros as u128),
                1,
            );
        }
        s
    }
}

} // verus!

//! Decimal rendering of integers, proved against its mathematical text.

use vstd::prelude::*;

verus! {

/// The ten decimal digit characters, in order.
pub open spec fn digit_chars() -> Seq<char> {
    seq!['0', '1', '2', '3', '4', '5', '6', '7', '8', '9']
}

/// The character of one decimal digit.
pub open spec fn digit(d: nat) -> char {
    digit_chars()[(d % 10) as int]
}

/// Shortest decimal text of a natural number.
pub open spec fn decimal(n: nat) -> Seq<char>
    decreases n,
{
    if n < 10 {
        seq![digit(n)]
    } else {
        decimal(n / 10).push(digit(n % 10))
    }
}

/// Decimal text of `n`, left-padded with zeros to at least `width` digits.
pub open spec fn padded(n: nat, width: nat) -> Seq<char>
    decreases width,
{
    if width <= decimal(n).len() {
        decimal(n)
    } else {
        seq!['0'] + padded(n, (width - 1) as nat)
    }
}

/// `n` read as a fixed-point number with `places` fractional digits:
/// `n / 10^places`, a dot, then the remainder zero-padded.
pub open spec fn fixed_point(n: nat, places: nat) -> Seq<char> {
    let unit = pow10(places);
    decimal(n / unit) + seq!['.'] + padded(n % unit, places)
}

pub open spec fn pow10(p: nat) -> nat
    decreases p,
{
    if p == 0 {
        1
    } else {
        10 * pow10((p - 1) as nat)
    }
}

fn digit_str(d: u128) -> (r: &'static str)
    requires
        d < 10,
    ensures
        r@ == seq![digit(d as nat)],
{
    proof {
        reveal_strlit("0");
        reveal_strlit("1");
        reveal_strlit("2");
        reveal_strlit("3");
        reveal_strlit("4");
        reveal_strlit("5");
        reveal_strlit("6");
        reveal_strlit("7");
        reveal_strlit("8");
        reveal_strlit("9");
    }
    match d {
        0 => "0",
        1 => "1",
        2 => "2",
        3 => "3",
        4 => "4",
        5 => "5",
        6 => "6",
        7 => "7",
        8 => "8",
        _ => "9",
    }
}

/// Appends the decimal text of `n` to `s`.
pub fn push_decimal(s: &mut String, n: u128)
    ensures
        final(s)@ == old(s)@ + decimal(n as nat),
    decreases n,
{
    if n >= 10 {
        push_decimal(s, n / 10);
    }
    s.append(digit_str(n % 10));
    proof {
        if n >= 10 {
            assert(decimal(n as nat) == decimal((n / 10) as nat).push(digit((n % 10) as nat)));
        }
    }
    assert(final(s)@ =~= old(s)@ + decimal(n as nat));
}

/// Appends the decimal text of `n`, zero-padded to `width` digits.
pub fn push_padded(s: &mut String, n: u128, width: u128)
    ensures
        final(s)@ == old(s)@ + padded(n as nat, width as nat),
    decreases width,
{
    let len = decimal_len(n);
    if width <= len {
        push_decimal(s, n);
    } else {
        s.append("0");
        proof {
            reveal_strlit("0");
        }
        push_padded(s, n, width - 1);
        assert(final(s)@ =~= old(s)@ + padded(n as nat, width as nat));
    }
}

/// Number of digits in the decimal text of `n`.
pub fn decimal_len(n: u128) -> (r: u128)
    ensures
        r as nat == decimal(n as nat).len(),
    decreases n,
{
    if n < 10 {
        1
    } else {
        let r = decimal_len(n / 10);
        proof {
            lemma_decimal_len_bound((n / 10) as nat);
        }
        r + 1
    }
}

proof fn lemma_decimal_len_bound(n: nat)
    ensures
        1 <= decimal(n).len() <= n + 1,
    decreases n,
{
    if n >= 10 {
        lemma_decimal_len_bound(n / 10);
    }
}

/// Appends `n / 10^places`, a dot and the zero-padded remainder.
pub fn push_fixed_point(s: &mut String, n: u128, places: u128)
    requires
        places <= 4,
    ensures
        final(s)@ == old(s)@ + fixed_point(n as nat, places as nat),
{
    let unit = pow10_exec(places);
    push_decimal(s, n / unit);
    s.append(".");
    proof {
        reveal_strlit(".");
    }
    push_padded(s, n % unit, places);
    assert(final(s)@ =~= old(s)@ + fixed_point(n as nat, places as nat));
}

/// The powers of ten that rendering uses.
pub proof fn lemma_pow10_small()
    ensures
        pow10(0) == 1,
        pow10(1) == 10,
        pow10(2) == 100,
        pow10(3) == 1000,
{
    reveal_with_fuel(pow10, 4);
}

fn pow10_exec(p: u128) -> (r: u128)
    requires
        p <= 4,
    ensures
        r as nat == pow10(p as nat),
        r >= 1,
{
    reveal_with_fuel(pow10, 5);
    if p == 0 {
        1
    } else if p == 1 {
        10
    } else if p == 2 {
        100
    } else if p == 3 {
        1000
    } else {
        10000
    }
}

} // verus!

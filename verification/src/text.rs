//! Decimal rendering of fixed-point quantities, as used in the human-readable
//! reasoning attached to every dispatch decision.
use vstd::prelude::*;

verus! {

/// The character of a decimal digit (`d` below ten).
pub open spec fn digit_char(d: nat) -> char {
    if d == 0 {
        '0'
    } else if d == 1 {
        '1'
    } else if d == 2 {
        '2'
    } else if d == 3 {
        '3'
    } else if d == 4 {
        '4'
    } else if d == 5 {
        '5'
    } else if d == 6 {
        '6'
    } else if d == 7 {
        '7'
    } else if d == 8 {
        '8'
    } else {
        '9'
    }
}

/// Ten to the power `n`.
pub open spec fn pow10(n: nat) -> nat
    decreases n,
{
    if n == 0 {
        1
    } else {
        10 * pow10((n - 1) as nat)
    }
}

/// Decimal digits of `n`, without leading zeros (`"0"` for zero).
pub open spec fn decimal_digits(n: nat) -> Seq<char>
    decreases n,
{
    if n < 10 {
        seq![digit_char(n)]
    } else {
        decimal_digits(n / 10).push(digit_char(n % 10))
    }
}

/// A number has at least one decimal digit, and exactly one below ten.
pub proof fn lemma_decimal_digits_len(n: nat)
    ensures
        decimal_digits(n).len() >= 1,
        decimal_digits(n).len() == 1 <==> n < 10,
    decreases n,
{
    if n >= 10 {
        lemma_decimal_digits_len(n / 10);
    }
}

/// Different numbers have different decimal texts.
pub proof fn lemma_decimal_digits_injective(a: nat, b: nat)
    requires
        decimal_digits(a) == decimal_digits(b),
    ensures
        a == b,
    decreases a,
{
    lemma_decimal_digits_len(a);
    lemma_decimal_digits_len(b);
    let da = decimal_digits(a);
    let db = decimal_digits(b);
    if a >= 10 && b >= 10 {
        assert(da.drop_last() =~= decimal_digits(a / 10));
        assert(db.drop_last() =~= decimal_digits(b / 10));
        assert(digit_char(a % 10) == da.last() && digit_char(b % 10) == db.last());
        assert(a % 10 == b % 10);
        lemma_decimal_digits_injective(a / 10, b / 10);
    } else {
        assert(a < 10 && b < 10);
        assert(digit_char(a) == da[0] && digit_char(b) == db[0]);
    }
}

/// The last `width` decimal digits of `n`, padded with leading zeros.
pub open spec fn padded_digits(n: nat, width: nat) -> Seq<char>
    decreases width,
{
    if width == 0 {
        Seq::empty()
    } else {
        padded_digits(n / 10, (width - 1) as nat).push(digit_char(n % 10))
    }
}

/// `m / div` rounded to the nearest integer, ties to the even one.
pub open spec fn round_half_even(m: nat, div: nat) -> nat {
    let q = m / div;
    let r = m % div;
    if 2 * r > div || (2 * r == div && q % 2 == 1) {
        q + 1
    } else {
        q
    }
}

/// Absolute value.
pub open spec fn magnitude(v: int) -> nat {
    if v < 0 {
        (-v) as nat
    } else {
        v as nat
    }
}

/// Decimal text of the signed integer `v`.
pub open spec fn signed_text(v: int) -> Seq<char> {
    if v < 0 {
        seq!['-'] + decimal_digits(magnitude(v))
    } else {
        decimal_digits(v as nat)
    }
}

/// Text of `v / 10^shift` with `decimals` digits after the point, rounded half
/// to even; a minus sign precedes every negative `v`, also one that rounds to
/// zero. For example a power of `-1250` watts shown in kilowatts with one
/// decimal is `fixed_text(-1250, 2, 1) == "-1.2"`.
pub open spec fn fixed_text(v: int, shift: nat, decimals: nat) -> Seq<char> {
    let q = round_half_even(magnitude(v), pow10(shift));
    let whole = q / pow10(decimals);
    let frac = q % pow10(decimals);
    let sign = if v < 0 { seq!['-'] } else { Seq::<char>::empty() };
    let tail = if decimals == 0 { Seq::<char>::empty() } else { seq!['.'] + padded_digits(frac, decimals) };
    sign + decimal_digits(whole) + tail
}

/// Appends one character to a string (`String::push`).
#[verifier::external_body]
pub(crate) fn push_char(s: &mut String, c: char)
    ensures
        final(s)@ == old(s)@.push(c),
{
    s.push(c)
}

fn digit(d: u64) -> (c: char)
    requires
        d < 10,
    ensures
        c == digit_char(d as nat),
{
    if d == 0 {
        '0'
    } else if d == 1 {
        '1'
    } else if d == 2 {
        '2'
    } else if d == 3 {
        '3'
    } else if d == 4 {
        '4'
    } else if d == 5 {
        '5'
    } else if d == 6 {
        '6'
    } else if d == 7 {
        '7'
    } else if d == 8 {
        '8'
    } else {
        '9'
    }
}

/// Appends the decimal digits of `n`.
pub fn push_decimal(s: &mut String, n: u64)
    ensures
        final(s)@ == old(s)@ + decimal_digits(n as nat),
    decreases n,
{
    let ghost start = s@;
    if n >= 10 {
        push_decimal(s, n / 10);
    }
    push_char(s, digit(n % 10));
    assert(s@ =~= start + decimal_digits(n as nat));
}

/// Appends the last `width` digits of `n`, zero padded.
fn push_padded(s: &mut String, n: u64, width: u32)
    ensures
        final(s)@ == old(s)@ + padded_digits(n as nat, width as nat),
    decreases width,
{
    let ghost start = s@;
    if width > 0 {
        push_padded(s, n / 10, width - 1);
        push_char(s, digit(n % 10));
        assert(s@ =~= start + padded_digits(n as nat, width as nat));
    } else {
        assert(s@ =~= start + padded_digits(n as nat, width as nat));
    }
}

proof fn lemma_pow10_positive_monotone(a: nat, b: nat)
    requires
        a <= b,
    ensures
        1 <= pow10(a) <= pow10(b),
    decreases b,
{
    if b > 0 {
        if a < b {
            lemma_pow10_positive_monotone(a, (b - 1) as nat);
        } else {
            lemma_pow10_positive_monotone((b - 1) as nat, (b - 1) as nat);
        }
    }
}

fn pow10_u64(n: u32) -> (p: u64)
    requires
        n <= 18,
    ensures
        p == pow10(n as nat),
        p >= 1,
{
    proof {
        reveal_with_fuel(pow10, 19);
        assert(pow10(18) == 1_000_000_000_000_000_000);
    }
    let mut p: u64 = 1;
    let mut i: u32 = 0;
    while i < n
        invariant
            i <= n <= 18,
            p == pow10(i as nat),
            pow10(18) == 1_000_000_000_000_000_000,
        decreases n - i,
    {
        proof {
            lemma_pow10_positive_monotone((i + 1) as nat, 18);
        }
        p = p * 10;
        i = i + 1;
    }
    p
}

fn round_half_even_u64(m: u64, div: u64) -> (q: u64)
    requires
        div >= 1,
    ensures
        q == round_half_even(m as nat, div as nat),
{
    let q = m / div;
    let r = m % div;
    if r > div - r || (r == div - r && q % 2 == 1) {
        proof {
            if div == 1 {
                assert(r == 0);
            } else {
                assert(q <= m / 2) by (nonlinear_arith)
                    requires
                        q == m / div,
                        div >= 2,
                ;
            }
        }
        q + 1
    } else {
        q
    }
}

fn magnitude_u64(v: i64) -> (m: u64)
    ensures
        m == magnitude(v as int),
{
    if v < 0 {
        ((-(v + 1)) as u64) + 1
    } else {
        v as u64
    }
}

/// Appends `fixed_text(v, shift, decimals)`.
pub fn push_fixed(s: &mut String, v: i64, shift: u32, decimals: u32)
    requires
        shift <= 18,
        decimals <= 18,
    ensures
        final(s)@ == old(s)@ + fixed_text(v as int, shift as nat, decimals as nat),
{
    let ghost start = s@;
    let ghost sign = if v < 0 { seq!['-'] } else { Seq::<char>::empty() };
    if v < 0 {
        push_char(s, '-');
    }
    assert(s@ =~= start + sign);
    let m = magnitude_u64(v);
    let q = round_half_even_u64(m, pow10_u64(shift));
    let p = pow10_u64(decimals);
    push_decimal(s, q / p);
    if decimals > 0 {
        push_char(s, '.');
        push_padded(s, q % p, decimals);
    }
    assert(s@ =~= start + fixed_text(v as int, shift as nat, decimals as nat));
}

/// Appends the decimal text of a signed integer.
pub fn push_signed(s: &mut String, v: i64)
    ensures
        final(s)@ == old(s)@ + signed_text(v as int),
{
    let ghost start = s@;
    if v < 0 {
        push_char(s, '-');
    }
    push_decimal(s, magnitude_u64(v));
    assert(s@ =~= start + signed_text(v as int));
}

} // verus!

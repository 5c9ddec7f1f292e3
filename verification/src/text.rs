//! Decimal rendering of integers and fixed-point ratios, with the
//! mathematical strings they must produce.

use vstd::prelude::*;

verus! {

/// The ASCII digit for `d` (`d < 10`).
pub open spec fn digit_char(d: nat) -> char {
    if d == 0 {
        '0'
    } else if d == 1 {
        '1'
    } else if d == 2 {
        '2'
    } else if d == 3 {
        '3'
    } else if d == 4 {
        '4'
    } else if d == 5 {
        '5'
    } else if d == 6 {
        '6'
    } else if d == 7 {
        '7'
    } else if d == 8 {
        '8'
    } else {
        '9'
    }
}

/// Base-ten digits of `n`, most significant first, without leading zeros.
pub open spec fn decimal(n: nat) -> Seq<char>
    decreases n,
{
    if n < 10 {
        seq![digit_char(n)]
    } else {
        decimal(n / 10).push(digit_char(n % 10))
    }
}

/// `count` zero digits.
pub open spec fn zeros(count: nat) -> Seq<char> {
    Seq::new(count, |i: int| '0')
}

/// `decimal(n)` left-padded with zeros to at least `width` characters.
pub open spec fn zero_padded(n: nat, width: nat) -> Seq<char> {
    let d = decimal(n);
    if d.len() >= width {
        d
    } else {
        zeros((width - d.len()) as nat) + d
    }
}

/// `10^k`.
pub open spec fn pow10(k: nat) -> nat
    decreases k,
{
    if k == 0 {
        1
    } else {
        10 * pow10((k - 1) as nat)
    }
}

/// `a / b` rounded to the nearest integer, ties to the even neighbour.
pub open spec fn div_round_half_even(a: nat, b: nat) -> nat
    recommends
        b > 0,
{
    let q = a / b;
    let r = a % b;
    if 2 * r > b {
        q + 1
    } else if 2 * r < b {
        q
    } else if q % 2 == 0 {
        q
    } else {
        q + 1
    }
}

/// The ratio `num / den` written with exactly `places` digits after the
/// decimal point, rounded to nearest with ties to even (no point when
/// `places == 0`).
pub open spec fn fixed_point(num: nat, den: nat, places: nat) -> Seq<char>
    recommends
        den > 0,
{
    let scaled = div_round_half_even(num * pow10(places), den);
    if places == 0 {
        decimal(scaled)
    } else {
        decimal(scaled / pow10(places)) + seq!['.'] + zero_padded(
            scaled % pow10(places),
            places,
        )
    }
}

/// Appends one character (`String::push`).
#[verifier::external_body]
pub(crate) fn push_char(s: &mut String, c: char)
    ensures
        final(s)@ == old(s)@.push(c),
{
    s.push(c)
}

/// The digit character for `d < 10`.
pub fn digit(d: u8) -> (c: char)
    requires
        d < 10,
    ensures
        c == digit_char(d as nat),
{
    match d {
        0 => '0',
        1 => '1',
        2 => '2',
        3 => '3',
        4 => '4',
        5 => '5',
        6 => '6',
        7 => '7',
        8 => '8',
        _ => '9',
    }
}

/// Appends the decimal digits of `n`.
pub fn push_decimal(s: &mut String, n: u128)
    ensures
        final(s)@ == old(s)@ + decimal(n as nat),
    decreases n,
{
    if n >= 10 {
        push_decimal(s, n / 10);
    }
    let d = (n % 10) as u8;
    push_char(s, digit(d));
    proof {
        assert(old(s)@ + decimal(n as nat) =~= s@);
    }
}

/// Number of decimal digits of `n`.
pub fn decimal_len(n: u128) -> (len: usize)
    ensures
        len == decimal(n as nat).len(),
        len <= 39,
    decreases n,
{
    if n < 10 {
        1
    } else {
        let l = decimal_len(n / 10);
        proof {
            lemma_decimal_len_bound(n as nat);
        }
        l + 1
    }
}

/// Every `u128` has at most 39 decimal digits.
proof fn lemma_decimal_len_bound(n: nat)
    requires
        n <= u128::MAX,
    ensures
        decimal(n).len() <= 39,
{
    assert(pow10(39) == 1000000000000000000000000000000000000000nat) by {
        reveal_with_fuel(pow10, 40);
    }
    lemma_decimal_len_lt(n, 39);
}

/// Numbers below `10^k` have at most `k` digits (`k >= 1`).
pub proof fn lemma_decimal_len_lt(n: nat, k: nat)
    requires
        k >= 1,
        n < pow10(k),
    ensures
        decimal(n).len() <= k,
    decreases k,
{
    if n >= 10 {
        assert(n / 10 < pow10((k - 1) as nat));
        if k == 1 {
            assert(pow10(1) == 10) by {
                reveal_with_fuel(pow10, 2);
            }
        } else {
            lemma_decimal_len_lt(n / 10, (k - 1) as nat);
        }
    }
}

/// Appends `count` zero digits.
pub fn push_zeros(s: &mut String, count: usize)
    ensures
        final(s)@ == old(s)@ + zeros(count as nat),
{
    let mut i: usize = 0;
    while i < count
        invariant
            i <= count,
            s@ == old(s)@ + zeros(i as nat),
        decreases count - i,
    {
        push_char(s, '0');
        i = i + 1;
        assert(s@ =~= old(s)@ + zeros(i as nat));
    }
}

/// Appends `n` left-padded with zeros to `width` characters.
pub fn push_zero_padded(s: &mut String, n: u128, width: usize)
    ensures
        final(s)@ == old(s)@ + zero_padded(n as nat, width as nat),
{
    let len = decimal_len(n);
    if len < width {
        push_zeros(s, width - len);
    }
    push_decimal(s, n);
    assert(s@ =~= old(s)@ + zero_padded(n as nat, width as nat));
}

/// `10^k` as a machine integer (`k <= 30`).
pub fn pow10_exec(k: u32) -> (p: u128)
    requires
        k <= 30,
    ensures
        p == pow10(k as nat),
        p >= 1,
{
    let mut p: u128 = 1;
    let mut i: u32 = 0;
    proof {
        lemma_pow10_monotone(0, 30);
    }
    while i < k
        invariant
            i <= k <= 30,
            p == pow10(i as nat),
            p >= 1,
            p <= pow10(30),
        decreases k - i,
    {
        proof {
            lemma_pow10_monotone((i + 1) as nat, 30);
        }
        p = p * 10;
        i = i + 1;
    }
    p
}

/// `pow10` grows with its exponent; `10^30` fits a `u128` with room to spare.
pub proof fn lemma_pow10_monotone(a: nat, b: nat)
    requires
        a <= b,
    ensures
        1 <= pow10(a) <= pow10(b),
        pow10(30) == 1000000000000000000000000000000nat,
    decreases b,
{
    assert(pow10(30) == 1000000000000000000000000000000nat) by {
        reveal_with_fuel(pow10, 31);
    }
    if b == 0 {
    } else if a == b {
        lemma_pow10_monotone((b - 1) as nat, (b - 1) as nat);
    } else {
        lemma_pow10_monotone(a, (b - 1) as nat);
    }
}

/// Appends `num / den` with `places` digits after the point, rounded half
/// to even (see [`fixed_point`]).
pub fn push_fixed(s: &mut String, num: u128, den: u64, places: u32)
    requires
        den > 0,
        places <= 4,
        num <= 1000000000000000000000000000u128,
    ensures
        final(s)@ == old(s)@ + fixed_point(num as nat, den as nat, places as nat),
{
    let p = pow10_exec(places);
    proof {
        lemma_pow10_monotone(places as nat, 4);
        assert(pow10(4) == 10000) by {
            reveal_with_fuel(pow10, 5);
        }
        assert((num as nat) * (p as nat) <= 1000000000000000000000000000nat * 10000) by (nonlinear_arith)
            requires
                num <= 1000000000000000000000000000nat,
                p <= 10000,
        ;
    }
    let a: u128 = num * p;
    let q: u128 = a / (den as u128);
    let r: u128 = a % (den as u128);
    let scaled: u128 = if 2 * r > den as u128 {
        q + 1
    } else if 2 * r < den as u128 {
        q
    } else if q % 2 == 0 {
        q
    } else {
        q + 1
    };
    assert(scaled == div_round_half_even(num as nat * pow10(places as nat), den as nat));
    if places == 0 {
        push_decimal(s, scaled);
    } else {
        push_decimal(s, scaled / p);
        push_char(s, '.');
        push_zero_padded(s, scaled % p, places as usize);
    }
    assert(s@ =~= old(s)@ + fixed_point(num as nat, den as nat, places as nat));
}

/// An exact non-negative ratio `numerator / denominator`: the value of a
/// quotient figure such as an average or a percentage.
#[derive(Debug, Clone, Copy, PartialEq, Eq, Structural)]
pub struct Ratio {
    /// Dividend.
    pub numerator: u128,
    /// Divisor (never zero for ratios the library produces).
    pub denominator: u64,
}

} // verus!

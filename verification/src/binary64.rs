//! The IEEE 754 binary64 number nearest to a quotient of integers, and its
//! text with a fixed number of decimals: the values that quotients of
//! counters take as 64-bit floats and how fixed-precision formatting writes
//! them, computed exactly with integers.

use vstd::arithmetic::power2::{lemma_pow2_pos, lemma_pow2_unfold, pow2};
use vstd::prelude::*;

use crate::text::{div_round_half_even, fixed_point, push_fixed};

verus! {

/// `2^(p-1)`, the least significand of precision `p`.
pub open spec fn sig_min(p: nat) -> nat {
    pow2((p - 1) as nat)
}

/// `2^p`, one past the greatest significand of precision `p`.
pub open spec fn sig_end(p: nat) -> nat {
    pow2(p)
}

/// Numerator of `(num / den) * 2^-e`.
pub open spec fn scaled_num(num: nat, e: int) -> nat {
    if e >= 0 {
        num
    } else {
        num * pow2((-e) as nat)
    }
}

/// Denominator of `(num / den) * 2^-e`.
pub open spec fn scaled_den(den: nat, e: int) -> nat {
    if e >= 0 {
        den * pow2(e as nat)
    } else {
        den
    }
}

/// Whether `2^(p - 1 + e) <= num / den < 2^(p + e)`: the numbers of
/// precision `p` near the quotient are `m * 2^e` with a `p`-bit
/// significand `m`.
pub open spec fn in_binade(num: nat, den: nat, e: int, p: nat) -> bool {
    &&& sig_min(p) * scaled_den(den, e) <= scaled_num(num, e)
    &&& scaled_num(num, e) < sig_end(p) * scaled_den(den, e)
}

/// The exponent of the binade holding `num / den` at precision `p`.
pub open spec fn binade_exponent(num: nat, den: nat, p: nat) -> int {
    choose|e: int| in_binade(num, den, e, p)
}

/// The binary floating-point number of precision `p` nearest to
/// `num / den`, ties to an even significand, as `(m, e)` standing for
/// `m * 2^e`; `(0, 0)` for zero.
pub open spec fn rounded_quotient(num: nat, den: nat, p: nat) -> (nat, int) {
    if num == 0 {
        (0, 0)
    } else {
        let e = binade_exponent(num, den, p);
        (div_round_half_even(scaled_num(num, e), scaled_den(den, e)), e)
    }
}

/// The binary64 number nearest to `num / den` (53-bit significands).
pub open spec fn binary64_quotient(num: nat, den: nat) -> (nat, int) {
    rounded_quotient(num, den, 53)
}

/// The binary32 number nearest to `num / den` (24-bit significands).
pub open spec fn binary32_quotient(num: nat, den: nat) -> (nat, int) {
    rounded_quotient(num, den, 24)
}

/// Numerator of the value `m * 2^e` of `d`.
pub open spec fn value_num(d: (nat, int)) -> nat {
    if d.1 >= 0 {
        d.0 * pow2(d.1 as nat)
    } else {
        d.0
    }
}

/// Denominator of the value `m * 2^e` of `d`.
pub open spec fn value_den(d: (nat, int)) -> nat {
    if d.1 >= 0 {
        1
    } else {
        pow2((-d.1) as nat)
    }
}

/// The text of the value of `d` with `places` decimals, rounded half to
/// even: how fixed-precision formatting writes a binary floating-point
/// number.
pub open spec fn binary64_text(d: (nat, int), places: nat) -> Seq<char> {
    fixed_point(value_num(d), value_den(d), places)
}

/// The binary64 number `num as f64 / den as f64` for counters `num` and
/// `den`: the conversion of `num` rounds, that of a small `den` is exact.
pub open spec fn counter_quotient(num: nat, den: nat) -> (nat, int) {
    let n = binary64_quotient(num, 1);
    binary64_quotient(value_num(n), value_den(n) * den)
}

/// The binary64 number `(part as f64 / count as f64) * 100.0` for small
/// counters.
pub open spec fn counter_percentage(part: nat, count: nat) -> (nat, int) {
    let q = binary64_quotient(part, count);
    binary64_quotient(100 * value_num(q), value_den(q))
}

// ==================== Lemmas ====================

/// Halving the scale: `(num/den) * 2^-e` is twice `(num/den) * 2^-(e+1)`.
proof fn lemma_scale_step(num: nat, den: nat, e: int)
    ensures
        scaled_num(num, e) * scaled_den(den, e + 1) == 2 * scaled_num(num, e + 1) * scaled_den(den, e),
{
    if e >= 0 {
        lemma_pow2_unfold((e + 1) as nat);
        assert(num * (den * pow2((e + 1) as nat)) == 2 * num * (den * pow2(e as nat))) by (nonlinear_arith)
            requires
                pow2((e + 1) as nat) == 2 * pow2(e as nat),
        ;
    } else if e == -1 {
        lemma_pow2_unfold(1);
        assert(pow2(0) == 1) by {
            vstd::arithmetic::power2::lemma2_to64();
        }
        assert(num * pow2(1) * (den * pow2(0)) == 2 * num * den) by (nonlinear_arith)
            requires
                pow2(1) == 2,
                pow2(0) == 1,
        ;
    } else {
        lemma_pow2_unfold((-e) as nat);
        assert(num * pow2((-e) as nat) * den == 2 * (num * pow2((-e - 1) as nat)) * den) by (nonlinear_arith)
            requires
                pow2((-e) as nat) == 2 * pow2((-e - 1) as nat),
        ;
    }
}

/// Scaled denominators are positive.
proof fn lemma_scaled_den_pos(den: nat, e: int)
    requires
        den > 0,
    ensures
        scaled_den(den, e) > 0,
{
    if e >= 0 {
        lemma_pow2_pos(e as nat);
        assert(den * pow2(e as nat) > 0) by (nonlinear_arith)
            requires
                den > 0,
                pow2(e as nat) > 0,
        ;
    }
}

/// Below the top of binade `e`, every later scale is below the bottom of
/// its binade.
proof fn lemma_below_later(num: nat, den: nat, e: int, k: nat, p: nat)
    requires
        den > 0,
        k >= 1,
        p >= 1,
        scaled_num(num, e) < sig_end(p) * scaled_den(den, e),
    ensures
        scaled_num(num, e + k) < sig_min(p) * scaled_den(den, e + k),
    decreases k,
{
    let d0 = scaled_den(den, e);
    let d1 = scaled_den(den, e + 1);
    let n0 = scaled_num(num, e);
    let n1 = scaled_num(num, e + 1);
    let t = sig_min(p);
    lemma_scale_step(num, den, e);
    lemma_scaled_den_pos(den, e);
    lemma_scaled_den_pos(den, e + 1);
    lemma_pow2_unfold(p);
    assert(sig_end(p) == 2 * t);
    assert(n0 * d1 < 2 * t * d0 * d1) by (nonlinear_arith)
        requires
            n0 < 2 * t * d0,
            d1 > 0,
    ;
    assert(n1 < t * d1) by (nonlinear_arith)
        requires
            n0 * d1 == 2 * n1 * d0,
            n0 * d1 < 2 * t * d0 * d1,
            d0 > 0,
    ;
    if k > 1 {
        lemma_pow2_pos((p - 1) as nat);
        assert(n1 < sig_end(p) * d1) by (nonlinear_arith)
            requires
                n1 < t * d1,
                sig_end(p) == 2 * t,
                d1 > 0,
        ;
        lemma_below_later(num, den, e + 1, (k - 1) as nat, p);
        assert(e + 1 + (k - 1) == e + k);
    }
}

/// The binade of a positive quotient is unique.
proof fn lemma_binade_unique(num: nat, den: nat, e1: int, e2: int, p: nat)
    requires
        den > 0,
        p >= 1,
        in_binade(num, den, e1, p),
        in_binade(num, den, e2, p),
    ensures
        e1 == e2,
{
    if e1 < e2 {
        lemma_below_later(num, den, e1, (e2 - e1) as nat, p);
    } else if e2 < e1 {
        lemma_below_later(num, den, e2, (e1 - e2) as nat, p);
    }
}

/// The exponent found for a quotient is its binade exponent.
proof fn lemma_binade_exponent(num: nat, den: nat, e: int, p: nat)
    requires
        den > 0,
        p >= 1,
        in_binade(num, den, e, p),
    ensures
        binade_exponent(num, den, p) == e,
{
    let c = binade_exponent(num, den, p);
    assert(in_binade(num, den, c, p));
    lemma_binade_unique(num, den, c, e, p);
}

/// `2^24` and `2^53`.
pub(crate) proof fn lemma_precision_tops()
    ensures
        pow2(23) == 0x80_0000,
        pow2(24) == 0x100_0000,
        pow2(52) == 0x10_0000_0000_0000,
        pow2(53) == 0x20_0000_0000_0000,
        pow2(0) == 1,
{
    vstd::arithmetic::power2::lemma2_to64();
    vstd::arithmetic::power2::lemma_pow2_adds(20, 32);
    vstd::arithmetic::power2::lemma_pow2_adds(21, 32);
}

// ==================== Computation ====================

/// The number of precision `p` (24 or 53 bits) nearest to `num / den`
/// (see [`rounded_quotient`]) for a positive quotient of at least
/// `2^-10`: its significand and exponent.
pub fn nearest_rounded(num: u128, den: u128, p: u32) -> (d: (u128, i32))
    requires
        p == 24 || p == 53,
        0 < num <= 0xf_ffff_ffff_ffff_ffff_ffff_ffff,
        0 < den <= 0x1_0000_0000_0000_0000,
        den <= num * 1024,
    ensures
        d.0 == rounded_quotient(num as nat, den as nat, p as nat).0,
        d.1 == rounded_quotient(num as nat, den as nat, p as nat).1,
        sig_min(p as nat) <= d.0 <= sig_end(p as nat),
        -62 <= d.1 <= 77,
        d.1 >= 0 ==> d.0 * pow2(d.1 as nat) <= 2 * num,
        in_binade(num as nat, den as nat, d.1 as int, p as nat),
{
    proof {
        lemma_precision_tops();
    }
    let top: u128 = if p == 24 {
        0x100_0000
    } else {
        0x20_0000_0000_0000
    };
    let ghost half = sig_min(p as nat);
    proof {
        lemma_pow2_unfold(p as nat);
    }
    assert(top == sig_end(p as nat) && top == 2 * half);
    let mut e: i32 = 0;
    let mut n: u128 = num;
    let mut dd: u128 = den;
    if num < top * den {
        assert(top * den <= 0x20_0000_0000_0000 * 0x1_0000_0000_0000_0000) by (nonlinear_arith)
            requires
                top <= 0x20_0000_0000_0000,
                den <= 0x1_0000_0000_0000_0000,
        ;
        while 2 * n < top * dd
            invariant
                -62 <= e <= 0,
                top * den <= 0x20_0000_0000_0000 * 0x1_0000_0000_0000_0000,
                dd == den,
                n == scaled_num(num as nat, e as int),
                n < top * den,
                0 < num <= 0xf_ffff_ffff_ffff_ffff_ffff_ffff,
                0 < den <= 0x1_0000_0000_0000_0000,
                den <= num * 1024,
                top == sig_end(p as nat),
                top <= 0x20_0000_0000_0000,
                pow2(0) == 1,
            decreases e + 62,
        {
            proof {
                lemma_pow2_unfold((-e + 1) as nat);
                if e == 0 {
                    assert(n == num);
                } else {
                    assert(n == num * pow2((-e) as nat));
                }
                assert(2 * n == scaled_num(num as nat, e - 1)) by (nonlinear_arith)
                    requires
                        e <= 0,
                        e == 0 ==> n == num,
                        e < 0 ==> n == num * pow2((-e) as nat),
                        pow2((-e + 1) as nat) == 2 * pow2((-e) as nat),
                        pow2(0) == 1,
                        scaled_num(num as nat, e - 1) == num * pow2((-e + 1) as nat),
                ;
                // The quotient is at least 2^-10, so the exponent stays above -62.
                if e <= -62 {
                    vstd::arithmetic::power2::lemma2_to64();
                    vstd::arithmetic::power2::lemma_pow2_adds(30, 32);
                    assert(pow2(62) == 0x4000_0000_0000_0000);
                    assert(e == -62);
                    assert(false) by (nonlinear_arith)
                        requires
                            2 * n < top * den,
                            top <= 0x20_0000_0000_0000,
                            n == num * 0x4000_0000_0000_0000,
                            den <= num * 1024,
                    ;
                }
            }
            n = 2 * n;
            e = e - 1;
        }
        assert(scaled_den(den as nat, e as int) == den) by (nonlinear_arith)
            requires
                e <= 0,
                pow2(0) == 1,
                e == 0 ==> scaled_den(den as nat, e as int) == den * pow2(0),
                e < 0 ==> scaled_den(den as nat, e as int) == den,
        ;
        assert(half * den <= n) by (nonlinear_arith)
            requires
                2 * n >= top * den,
                top == 2 * half,
        ;
        assert(in_binade(num as nat, den as nat, e as int, p as nat));
    } else {
        assert(scaled_den(den as nat, 0) == den) by (nonlinear_arith)
            requires
                pow2(0) == 1,
                scaled_den(den as nat, 0) == den * pow2(0),
        ;
        assert(half * den <= num) by (nonlinear_arith)
            requires
                num >= top * den,
                top == 2 * half,
        ;
        assert(top * dd <= 2 * n) by (nonlinear_arith)
            requires
                top == 2 * half,
                half * dd <= n,
        ;
        while n >= top * dd
            invariant
                0 <= e <= 77,
                top * dd <= 2 * n,
                n == num,
                dd == scaled_den(den as nat, e as int),
                half * dd <= n,
                0 < num <= 0xf_ffff_ffff_ffff_ffff_ffff_ffff,
                0 < den <= 0x1_0000_0000_0000_0000,
                top == sig_end(p as nat),
                top == 2 * half,
                half >= 0x80_0000,
                pow2(0) == 1,
            decreases 77 - e,
        {
            proof {
                lemma_pow2_unfold((e + 1) as nat);
                if e >= 77 {
                    vstd::arithmetic::power2::lemma2_to64();
                    vstd::arithmetic::power2::lemma_pow2_adds(13, 64);
                    if e > 77 {
                        vstd::arithmetic::power2::lemma_pow2_strictly_increases(77, e as nat);
                    }
                    assert(pow2(e as nat) >= 0x2000_0000_0000_0000_0000);
                    assert(false) by (nonlinear_arith)
                        requires
                            dd == den * pow2(e as nat),
                            den >= 1,
                            pow2(e as nat) >= 0x2000_0000_0000_0000_0000,
                            half >= 0x80_0000,
                            half * dd <= n,
                            n <= 0xf_ffff_ffff_ffff_ffff_ffff_ffff,
                    ;
                }
                assert(2 * dd == scaled_den(den as nat, e + 1)) by (nonlinear_arith)
                    requires
                        e >= 0,
                        dd == den * pow2(e as nat),
                        pow2((e + 1) as nat) == 2 * pow2(e as nat),
                        scaled_den(den as nat, e + 1) == den * pow2((e + 1) as nat),
                ;
                assert(half * (2 * dd) <= n) by (nonlinear_arith)
                    requires
                        n >= top * dd,
                        top == 2 * half,
                ;
                assert(top * (2 * dd) <= 2 * n) by (nonlinear_arith)
                    requires
                        half * (2 * dd) <= n,
                        top == 2 * half,
                ;
                assert(2 * dd <= 0x2000_0000_0000_0000_0000) by (nonlinear_arith)
                    requires
                        half * (2 * dd) <= n,
                        half >= 0x80_0000,
                        n <= 0xf_ffff_ffff_ffff_ffff_ffff_ffff,
                ;
            }
            dd = 2 * dd;
            e = e + 1;
        }
        assert(in_binade(num as nat, den as nat, e as int, p as nat));
    }
    proof {
        lemma_binade_exponent(num as nat, den as nat, e as int, p as nat);
    }
    assert(n < top * dd && dd > 0);
    let q = n / dd;
    let r = n % dd;
    assert(q < top) by (nonlinear_arith)
        requires
            n < top * dd,
            dd > 0,
            q == n / dd,
    ;
    assert(n == scaled_num(num as nat, e as int) && dd == scaled_den(den as nat, e as int));
    assert(q >= half) by (nonlinear_arith)
        requires
            half * dd <= n,
            dd > 0,
            q == n / dd,
    ;
    let m = if 2 * r > dd {
        q + 1
    } else if 2 * r < dd {
        q
    } else if q % 2 == 0 {
        q
    } else {
        q + 1
    };
    proof {
        if e >= 0 {
            lemma_pow2_pos(e as nat);
            assert(m * pow2(e as nat) <= 2 * num) by (nonlinear_arith)
                requires
                    m <= top,
                    top == 2 * half,
                    half * dd <= num,
                    dd == den * pow2(e as nat),
                    den >= 1,
                    pow2(e as nat) >= 1,
            ;
        }
    }
    (m, e)
}

/// `2^k` for `k <= 77`.
fn pow2_exec(k: u32) -> (r: u128)
    requires
        k <= 77,
    ensures
        r == pow2(k as nat),
        r <= 0x2000_0000_0000_0000_0000,
{
    proof {
        vstd::arithmetic::power2::lemma2_to64();
        vstd::arithmetic::power2::lemma_pow2_adds(13, 64);
    }
    let mut r: u128 = 1;
    let mut i: u32 = 0;
    while i < k
        invariant
            i <= k <= 77,
            r == pow2(i as nat),
            pow2(77) == 0x2000_0000_0000_0000_0000,
        decreases k - i,
    {
        proof {
            lemma_pow2_unfold((i + 1) as nat);
            vstd::arithmetic::power2::lemma_pow2_strictly_increases(i as nat, 77);
        }
        r = 2 * r;
        i = i + 1;
    }
    proof {
        if k < 77 {
            vstd::arithmetic::power2::lemma_pow2_strictly_increases(k as nat, 77);
        }
    }
    r
}

/// The value of `d` as `(numerator, denominator)`.
pub(crate) fn value_parts(d: (u128, i32)) -> (v: (u128, u128))
    requires
        d.0 <= sig_end(53),
        -62 <= d.1 <= 77,
        d.1 >= 0 ==> d.0 * pow2(d.1 as nat) <= 0x20_0000_0000_0000_0000_0000_0000,
    ensures
        v.0 == value_num((d.0 as nat, d.1 as int)),
        v.1 == value_den((d.0 as nat, d.1 as int)),
        d.1 < 0 ==> v.0 <= sig_end(53),
        d.1 >= 0 ==> v.1 == 1,
        0 < v.1 <= 0x4000_0000_0000_0000,
{
    proof {
        lemma_precision_tops();
    }
    if d.1 >= 0 {
        let p = pow2_exec(d.1 as u32);
        (d.0 * p, 1)
    } else {
        let k = (-d.1) as u32;
        let p = pow2_exec(k);
        proof {
            vstd::arithmetic::power2::lemma2_to64();
            vstd::arithmetic::power2::lemma_pow2_adds(30, 32);
            if k < 62 {
                vstd::arithmetic::power2::lemma_pow2_strictly_increases(k as nat, 62);
            }
            lemma_pow2_pos(k as nat);
        }
        (d.0, p)
    }
}

/// Appends the text of the binary64 number `d` with `places` decimals.
fn push_binary64(s: &mut String, d: (u128, i32), places: u32)
    requires
        d.0 <= sig_end(53),
        -62 <= d.1 <= 77,
        d.1 >= 0 ==> d.0 * pow2(d.1 as nat) <= 0x1_0000_0000_0000_0000_0000,
        places <= 4,
    ensures
        final(s)@ == old(s)@ + binary64_text((d.0 as nat, d.1 as int), places as nat),
{
    proof {
        lemma_precision_tops();
    }
    let v = value_parts(d);
    push_fixed(s, v.0, v.1 as u64, places);
}

/// Appends `num as f64 / count as f64` written with `places` decimals (see
/// [`counter_quotient`]).
pub fn push_counter_quotient(s: &mut String, num: u128, count: u64, places: u32)
    requires
        num < 0x40_0000_0000_0000_0000,
        1 <= count <= 1024,
        places <= 4,
    ensures
        final(s)@ == old(s)@ + binary64_text(counter_quotient(num as nat, count as nat), places as nat),
{
    let q = counter_quotient_value(num, count);
    push_binary64(s, q, places);
}

/// The value of `num as f64 / count as f64` (see [`counter_quotient`]) as
/// `(numerator, denominator)`.
pub fn counter_quotient_parts(num: u128, count: u64) -> (v: (u128, u128))
    requires
        num < 0x40_0000_0000_0000_0000,
        1 <= count <= 1024,
    ensures
        v.0 == value_num(counter_quotient(num as nat, count as nat)),
        v.1 == value_den(counter_quotient(num as nat, count as nat)),
        0 < v.1 <= 0x4000_0000_0000_0000,
{
    let q = counter_quotient_value(num, count);
    value_parts(q)
}

/// `num as f64 / count as f64` for a counter below 2^70 and a small count.
fn counter_quotient_value(num: u128, count: u64) -> (d: (u128, i32))
    requires
        num < 0x40_0000_0000_0000_0000,
        1 <= count <= 1024,
    ensures
        d.0 == counter_quotient(num as nat, count as nat).0,
        d.1 == counter_quotient(num as nat, count as nat).1,
        d.0 <= sig_end(53),
        -62 <= d.1 <= 77,
        d.1 >= 0 ==> d.0 * pow2(d.1 as nat) <= 0x1_0000_0000_0000_0000_0000,
{
    proof {
        lemma_precision_tops();
    }
    if num == 0 {
        assert(binary64_quotient(0, 1) == (0nat, 0int));
        proof {
            lemma_zero_value();
        }
        assert(value_num((0nat, 0int)) == 0);
        assert(binary64_quotient(0, value_den((0nat, 0int)) * count as nat) == (0nat, 0int));
        return (0, 0);
    }
    let n = nearest_rounded(num, 1, 53);
    let v = value_parts(n);
    proof {
        lemma_integer_binary64(num as nat);
        assert(v.1 * (count as u128) <= 0x10_0000_0000_0000 * 1024) by (nonlinear_arith)
            requires
                v.1 <= 0x10_0000_0000_0000,
                count <= 1024,
        ;
        assert(v.1 * (count as u128) > 0) by (nonlinear_arith)
            requires
                v.1 > 0,
                count >= 1,
        ;
        assert(v.1 * (count as u128) <= v.0 * 1024) by (nonlinear_arith)
            requires
                v.1 <= v.0,
                count <= 1024,
        ;
    }
    nearest_rounded(v.0, v.1 * (count as u128), 53)
}

/// A counter below 2^70 as a binary64 number: exponent between -52 and
/// 17, value at least 1 and at most 2^70.
proof fn lemma_integer_binary64(num: nat)
    requires
        1 <= num < 0x40_0000_0000_0000_0000,
        in_binade(num, 1, binade_exponent(num, 1, 53), 53),
    ensures
        ({
            let d = binary64_quotient(num, 1);
            &&& -52 <= d.1 <= 17
            &&& d.0 <= sig_end(53)
            &&& value_num(d) >= value_den(d)
            &&& value_num(d) <= 0x40_0000_0000_0000_0000
            &&& value_den(d) <= 0x10_0000_0000_0000
        }),
{
    let e = binade_exponent(num, 1, 53);
    vstd::arithmetic::power2::lemma2_to64();
    lemma_precision_tops();
    assert(in_binade(num, 1, e, 53));
    let n = scaled_num(num, e);
    let dd = scaled_den(1, e);
    if e >= 18 {
        if e > 18 {
            vstd::arithmetic::power2::lemma_pow2_strictly_increases(18, e as nat);
        }
        assert(pow2(e as nat) >= 0x4_0000);
        assert(false) by (nonlinear_arith)
            requires
                0x10_0000_0000_0000 * (1 * pow2(e as nat)) <= num,
                num < 0x40_0000_0000_0000_0000,
                pow2(e as nat) >= 0x4_0000,
        ;
    }
    if e <= -53 {
        if e < -53 {
            vstd::arithmetic::power2::lemma_pow2_strictly_increases(53, (-e) as nat);
        }
        vstd::arithmetic::power2::lemma_pow2_adds(21, 32);
        assert(pow2(53) == 0x20_0000_0000_0000);
        assert(num * pow2((-e) as nat) >= 0x20_0000_0000_0000) by (nonlinear_arith)
            requires
                num >= 1,
                pow2((-e) as nat) >= 0x20_0000_0000_0000,
        ;
        assert(false);
    }
    let m = div_round_half_even(n, dd);
    if e >= 0 {
        lemma_pow2_pos(e as nat);
        assert(dd == pow2(e as nat));
        assert(n / dd >= sig_min(53)) by (nonlinear_arith)
            requires
                sig_min(53) * dd <= n,
                dd > 0,
        ;
        assert(n / dd < sig_end(53)) by (nonlinear_arith)
            requires
                n < sig_end(53) * dd,
                dd > 0,
        ;
        if e > 0 {
            vstd::arithmetic::power::lemma_pow_increases(2, e as nat, 17);
            vstd::arithmetic::power2::lemma_pow2(e as nat);
            vstd::arithmetic::power2::lemma_pow2(17);
        }
        assert(pow2(e as nat) <= 0x2_0000);
        assert(m * pow2(e as nat) <= 0x20_0000_0000_0000 * 0x2_0000) by (nonlinear_arith)
            requires
                m <= 0x20_0000_0000_0000,
                pow2(e as nat) <= 0x2_0000,
        ;
        assert(m * pow2(e as nat) >= 1) by (nonlinear_arith)
            requires
                m >= 0x10_0000_0000_0000,
                pow2(e as nat) >= 1,
        ;
    } else {
        assert(dd == 1);
        assert(m == n);
        lemma_pow2_pos((-e) as nat);
        assert(n >= pow2((-e) as nat)) by (nonlinear_arith)
            requires
                n == num * pow2((-e) as nat),
                num >= 1,
        ;
        vstd::arithmetic::power::lemma_pow_increases(2, (-e) as nat, 52);
        vstd::arithmetic::power2::lemma_pow2((-e) as nat);
        vstd::arithmetic::power2::lemma_pow2(52);
        vstd::arithmetic::power2::lemma_pow2_adds(20, 32);
    }
}

/// Appends `(part as f64 / count as f64) * 100.0` written with `places`
/// decimals (see [`counter_percentage`]).
pub fn push_counter_percentage(s: &mut String, part: u64, count: u64, places: u32)
    requires
        part <= count,
        1 <= count <= 1024,
        places <= 4,
    ensures
        final(s)@ == old(s)@ + binary64_text(counter_percentage(part as nat, count as nat), places as nat),
{
    let p = counter_percentage_value(part, count);
    push_binary64(s, p, places);
}

/// `(part as f64 / count as f64) * 100.0` for small counters.
fn counter_percentage_value(part: u64, count: u64) -> (d: (u128, i32))
    requires
        part <= count,
        1 <= count <= 1024,
    ensures
        d.0 == counter_percentage(part as nat, count as nat).0,
        d.1 == counter_percentage(part as nat, count as nat).1,
        d.0 <= sig_end(53),
        -62 <= d.1 <= 77,
        d.1 >= 0 ==> d.0 * pow2(d.1 as nat) <= 0x1_0000_0000_0000_0000_0000,
{
    proof {
        lemma_precision_tops();
    }
    if part == 0 {
        assert(binary64_quotient(0, count as nat) == (0nat, 0int));
        proof {
            lemma_zero_value();
        }
        assert(counter_percentage(0, count as nat) == (0nat, 0int));
        return (0, 0);
    }
    let q = nearest_rounded(part as u128, count as u128, 53);
    proof {
        lemma_fraction_exponent(part as nat, count as nat, q.1 as int);
    }
    let v = value_parts(q);
    proof {
        vstd::arithmetic::power2::lemma2_to64();
        vstd::arithmetic::power2::lemma_pow2_adds(30, 32);
        if q.1 > -62 {
            vstd::arithmetic::power::lemma_pow_increases(2, (-q.1) as nat, 62);
            vstd::arithmetic::power2::lemma_pow2((-q.1) as nat);
            vstd::arithmetic::power2::lemma_pow2(62);
        }
        assert(v.1 <= 0x4000_0000_0000_0000);
        assert(v.1 <= v.0 * 100 * 1024) by (nonlinear_arith)
            requires
                v.0 >= 0x10_0000_0000_0000,
                v.1 <= 0x4000_0000_0000_0000,
        ;
    }
    nearest_rounded(100 * v.0, v.1, 53)
}

/// A quotient of at most 1 lies in a binade below zero.
proof fn lemma_fraction_exponent(part: nat, count: nat, e: int)
    requires
        1 <= part <= count,
        in_binade(part, count, e, 53),
    ensures
        e < 0,
{
    lemma_precision_tops();
    if e >= 0 {
        lemma_pow2_pos(e as nat);
        assert(false) by (nonlinear_arith)
            requires
                0x10_0000_0000_0000 * (count * pow2(e as nat)) <= part,
                part <= count,
                count >= 1,
                pow2(e as nat) >= 1,
        ;
    }
}

/// Whether the value of `d` exceeds the integer `limit`.
fn binary64_exceeds(d: (u128, i32), limit: u128) -> (over: bool)
    requires
        d.0 <= sig_end(53),
        -62 <= d.1 <= 77,
        d.1 >= 0 ==> d.0 * pow2(d.1 as nat) <= 0x1_0000_0000_0000_0000_0000,
        limit <= 1000,
    ensures
        over == (value_num((d.0 as nat, d.1 as int)) > limit * value_den((d.0 as nat, d.1 as int))),
{
    let v = value_parts(d);
    assert(limit * v.1 <= 1000 * 0x4000_0000_0000_0000) by (nonlinear_arith)
        requires
            limit <= 1000,
            v.1 <= 0x4000_0000_0000_0000,
    ;
    v.0 > limit * v.1
}

/// Whether `(part as f64 / count as f64) * 100.0 > limit`.
pub fn counter_percentage_exceeds(part: u64, count: u64, limit: u128) -> (over: bool)
    requires
        part <= count,
        1 <= count <= 1024,
        limit <= 1000,
    ensures
        over == (value_num(counter_percentage(part as nat, count as nat)) > limit * value_den(
            counter_percentage(part as nat, count as nat),
        )),
{
    let p = counter_percentage_value(part, count);
    binary64_exceeds(p, limit)
}

/// Zero as `(0, 0)` has value `0 / 1`.
pub(crate) proof fn lemma_zero_value()
    ensures
        value_num((0nat, 0int)) == 0,
        value_den((0nat, 0int)) == 1,
{
    assert(0 * pow2(0) == 0);
}

/// The text of `num as f64 / 2^k` with `places` decimals (the division by
/// a power of two is exact).
pub open spec fn counter_over_pow2_text(num: nat, k: nat, places: nat) -> Seq<char> {
    let b = binary64_quotient(num, 1);
    fixed_point(value_num(b), value_den(b) * pow2(k), places)
}

/// A counter of at least `2^k` lies in a binade at or above `k - 52`.
proof fn lemma_large_counter_exponent(num: nat, k: nat, e: int)
    requires
        k <= 52,
        num >= pow2(k),
        in_binade(num, 1, e, 53),
    ensures
        e >= k - 52,
{
    if e < k - 52 {
        let j = (-e) as nat;
        lemma_pow2_pos(j);
        vstd::arithmetic::power2::lemma_pow2_adds(k, j);
        vstd::arithmetic::power2::lemma2_to64();
        vstd::arithmetic::power2::lemma_pow2_adds(21, 32);
        assert(pow2(53) == 0x20_0000_0000_0000);
        assert(k + j >= 53);
        if k + j > 53 {
            vstd::arithmetic::power2::lemma_pow2_strictly_increases(53, k + j);
        }
        assert(scaled_num(num, e) == num * pow2(j));
        assert(scaled_den(1, e) == 1);
        assert(false) by (nonlinear_arith)
            requires
                num * pow2(j) < 0x20_0000_0000_0000 * 1,
                num >= pow2(k),
                pow2(k + j) == pow2(k) * pow2(j),
                pow2(k + j) >= 0x20_0000_0000_0000,
        ;
    }
}

/// Appends `num as f64 / 2^k` with `places` decimals, for `num >= 2^k`.
pub fn push_counter_over_pow2(s: &mut String, num: u128, k: u32, places: u32)
    requires
        k == 10 || k == 20,
        pow2(k as nat) <= num < 0x40_0000_0000_0000_0000,
        places <= 4,
    ensures
        final(s)@ == old(s)@ + counter_over_pow2_text(num as nat, k as nat, places as nat),
{
    proof {
        vstd::arithmetic::power2::lemma2_to64();
    }
    let n = nearest_rounded(num, 1, 53);
    proof {
        lemma_integer_binary64(num as nat);
        lemma_large_counter_exponent(num as nat, k as nat, n.1 as int);
    }
    let v = value_parts(n);
    let scale: u128 = if k == 10 { 1024 } else { 0x10_0000 };
    proof {
        if n.1 < 0 {
            vstd::arithmetic::power::lemma_pow_increases(2, (-n.1) as nat, (52 - k) as nat);
            vstd::arithmetic::power2::lemma_pow2((-n.1) as nat);
            vstd::arithmetic::power2::lemma_pow2((52 - k) as nat);
            vstd::arithmetic::power2::lemma_pow2_adds((52 - k) as nat, k as nat);
            vstd::arithmetic::power2::lemma_pow2_adds(20, 32);
            assert(v.1 * scale <= 0x10_0000_0000_0000) by (nonlinear_arith)
                requires
                    v.1 <= pow2((52 - k) as nat),
                    scale == pow2(k as nat),
                    pow2((52 - k) as nat) * pow2(k as nat) == pow2(52),
                    pow2(52) == 0x10_0000_0000_0000,
            ;
        } else {
            assert(v.1 == 1);
        }
    }
    push_fixed(s, v.0, (v.1 * scale) as u64, places);
}

// ==================== Binary32 growth ====================

/// `d * 1.5` in binary32 (the exact product, rounded).
pub open spec fn times_three_halves32(d: (nat, int)) -> (nat, int) {
    binary32_quotient(3 * value_num(d), 2 * value_den(d))
}

/// The least integer at or above the value of `d` (`ceil`).
pub open spec fn ceil_value(d: (nat, int)) -> nat {
    ((value_num(d) + value_den(d) - 1) as nat) / value_den(d)
}

/// Value denominators are positive.
pub(crate) proof fn lemma_value_den_pos(d: (nat, int))
    ensures
        value_den(d) >= 1,
{
    if d.1 < 0 {
        lemma_pow2_pos((-d.1) as nat);
    }
}

/// Below the top of the binade at `e <= 0`, some binade holds the quotient.
proof fn lemma_binade_below(num: nat, den: nat, p: nat, e: int)
    requires
        num > 0,
        den > 0,
        p >= 1,
        e <= 0,
        scaled_num(num, e) < sig_end(p) * scaled_den(den, e),
    ensures
        exists|r: int| in_binade(num, den, r, p),
    decreases (if sig_min(p) * den >= scaled_num(num, e) {
        (sig_min(p) * den - scaled_num(num, e)) as nat
    } else {
        0nat
    }),
{
    vstd::arithmetic::power2::lemma2_to64();
    assert(scaled_den(den, e) == den) by (nonlinear_arith)
        requires
            e <= 0,
            pow2(0) == 1,
            e == 0 ==> scaled_den(den, e) == den * pow2(0),
            e < 0 ==> scaled_den(den, e) == den,
    ;
    if sig_min(p) * den <= scaled_num(num, e) {
        assert(in_binade(num, den, e, p));
    } else {
        lemma_scale_step(num, den, e - 1);
        lemma_pow2_unfold(p);
        lemma_pow2_pos((-e) as nat);
        assert(scaled_den(den, e - 1) == den);
        assert(scaled_num(num, e - 1) == 2 * scaled_num(num, e)) by (nonlinear_arith)
            requires
                scaled_num(num, e - 1) * den == 2 * scaled_num(num, e) * den,
                den > 0,
        ;
        assert(scaled_num(num, e) > 0) by {
            if e < 0 {
                assert(num * pow2((-e) as nat) > 0) by (nonlinear_arith)
                    requires
                        num > 0,
                        pow2((-e) as nat) > 0,
                ;
            }
        }
        assert(scaled_num(num, e - 1) < sig_end(p) * scaled_den(den, e - 1)) by (nonlinear_arith)
            requires
                scaled_num(num, e - 1) == 2 * scaled_num(num, e),
                scaled_num(num, e) < sig_min(p) * den,
                sig_end(p) == 2 * sig_min(p),
                scaled_den(den, e - 1) == den,
        ;
        lemma_binade_below(num, den, p, e - 1);
    }
}

/// Above the bottom of the binade at `e >= 0`, some binade holds the quotient.
proof fn lemma_binade_above(num: nat, den: nat, p: nat, e: int)
    requires
        num > 0,
        den > 0,
        p >= 1,
        e >= 0,
        sig_min(p) * scaled_den(den, e) <= num,
    ensures
        exists|r: int| in_binade(num, den, r, p),
    decreases num - sig_min(p) * scaled_den(den, e),
{
    if num < sig_end(p) * scaled_den(den, e) {
        assert(in_binade(num, den, e, p));
    } else {
        lemma_scale_step(num, den, e);
        lemma_pow2_unfold(p);
        lemma_pow2_pos((p - 1) as nat);
        lemma_scaled_den_pos(den, e);
        assert(scaled_den(den, e + 1) == 2 * scaled_den(den, e)) by (nonlinear_arith)
            requires
                num * scaled_den(den, e + 1) == 2 * num * scaled_den(den, e),
                num > 0,
        ;
        assert(sig_min(p) * scaled_den(den, e + 1) == sig_end(p) * scaled_den(den, e)) by (nonlinear_arith)
            requires
                scaled_den(den, e + 1) == 2 * scaled_den(den, e),
                sig_end(p) == 2 * sig_min(p),
        ;
        assert(sig_min(p) * scaled_den(den, e) > 0) by (nonlinear_arith)
            requires
                sig_min(p) > 0,
                scaled_den(den, e) > 0,
        ;
        assert(sig_min(p) * scaled_den(den, e + 1) > sig_min(p) * scaled_den(den, e)) by (nonlinear_arith)
            requires
                sig_min(p) * scaled_den(den, e + 1) == sig_end(p) * scaled_den(den, e),
                sig_end(p) == 2 * sig_min(p),
                sig_min(p) * scaled_den(den, e) > 0,
        ;
        lemma_binade_above(num, den, p, e + 1);
    }
}

/// Every positive quotient lies in a binade.
proof fn lemma_binade_exists(num: nat, den: nat, p: nat)
    requires
        num > 0,
        den > 0,
        p >= 1,
    ensures
        in_binade(num, den, binade_exponent(num, den, p), p),
{
    vstd::arithmetic::power2::lemma2_to64();
    assert(scaled_den(den, 0) == den) by (nonlinear_arith)
        requires
            pow2(0) == 1,
            scaled_den(den, 0) == den * pow2(0),
    ;
    assert(scaled_num(num, 0) == num);
    if num < sig_end(p) * den {
        lemma_binade_below(num, den, p, 0);
    } else {
        lemma_pow2_unfold(p);
        assert(sig_min(p) * den <= sig_end(p) * den) by (nonlinear_arith)
            requires
                sig_end(p) == 2 * sig_min(p),
        ;
        lemma_binade_above(num, den, p, 0);
    }
}

/// Rounding loses less than one part in `2^p`: with `N / D` at least
/// `2^(p-1)`, the rounded quotient `m` has `m * D * 2^p >= N * (2^p - 1)`.
proof fn lemma_round_lower(n: nat, d: nat, p: nat)
    requires
        d > 0,
        p >= 1,
        sig_min(p) * d <= n,
    ensures
        div_round_half_even(n, d) * d * sig_end(p) >= n * (sig_end(p) - 1),
{
    let q = n / d;
    let r = n % d;
    let m = div_round_half_even(n, d);
    let t = sig_min(p);
    lemma_pow2_unfold(p);
    lemma_pow2_pos((p - 1) as nat);
    vstd::arithmetic::div_mod::lemma_fundamental_div_mod(n as int, d as int);
    assert(2 * (n - m * d) <= d) by (nonlinear_arith)
        requires
            n == d * q + r,
            0 <= r < d,
            m == q || m == q + 1,
            m == q ==> 2 * r <= d,
    ;
    assert(m * d * (2 * t) >= n * (2 * t - 1)) by (nonlinear_arith)
        requires
            2 * (n - m * d) <= d,
            t * d <= n,
            t >= 1,
    ;
}

/// The value of the rounded quotient is at least `(num / den) * (1 - 2^-p)`.
pub(crate) proof fn lemma_value_lower(num: nat, den: nat, p: nat)
    requires
        num > 0,
        den > 0,
        p >= 1,
    ensures
        value_num(rounded_quotient(num, den, p)) * den * sig_end(p) >= num * value_den(
            rounded_quotient(num, den, p),
        ) * (sig_end(p) - 1),
{
    lemma_binade_exists(num, den, p);
    let e = binade_exponent(num, den, p);
    let n = scaled_num(num, e);
    let d = scaled_den(den, e);
    lemma_scaled_den_pos(den, e);
    lemma_round_lower(n, d, p);
    let m = div_round_half_even(n, d);
    let s = sig_end(p);
    if e >= 0 {
        assert(m * pow2(e as nat) * den * s >= num * 1 * (s - 1)) by (nonlinear_arith)
            requires
                m * d * s >= n * (s - 1),
                d == den * pow2(e as nat),
                n == num,
        ;
    } else {
        assert(m * den * s >= num * pow2((-e) as nat) * (s - 1)) by (nonlinear_arith)
            requires
                m * d * s >= n * (s - 1),
                d == den,
                n == num * pow2((-e) as nat),
        ;
    }
}

/// Rounding gains less than one part in `2^p`: with `N / D` at least
/// `2^(p-1)`, the rounded quotient `m` has `m * D * 2^p <= N * (2^p + 1)`.
proof fn lemma_round_upper(n: nat, d: nat, p: nat)
    requires
        d > 0,
        p >= 1,
        sig_min(p) * d <= n,
    ensures
        div_round_half_even(n, d) * d * sig_end(p) <= n * (sig_end(p) + 1),
{
    let q = n / d;
    let r = n % d;
    let m = div_round_half_even(n, d);
    let t = sig_min(p);
    lemma_pow2_unfold(p);
    lemma_pow2_pos((p - 1) as nat);
    vstd::arithmetic::div_mod::lemma_fundamental_div_mod(n as int, d as int);
    assert(2 * (m * d) <= 2 * n + d) by (nonlinear_arith)
        requires
            n == d * q + r,
            0 <= r < d,
            m == q || m == q + 1,
            m == q + 1 ==> 2 * r >= d,
    ;
    assert(m * d * (2 * t) <= n * (2 * t + 1)) by (nonlinear_arith)
        requires
            2 * (m * d) <= 2 * n + d,
            t * d <= n,
            t >= 1,
    ;
}

/// The value of the rounded quotient is at most `(num / den) * (1 + 2^-p)`.
pub(crate) proof fn lemma_value_upper(num: nat, den: nat, p: nat)
    requires
        num > 0,
        den > 0,
        p >= 1,
    ensures
        value_num(rounded_quotient(num, den, p)) * den * sig_end(p) <= num * value_den(
            rounded_quotient(num, den, p),
        ) * (sig_end(p) + 1),
{
    lemma_binade_exists(num, den, p);
    let e = binade_exponent(num, den, p);
    let n = scaled_num(num, e);
    let d = scaled_den(den, e);
    lemma_scaled_den_pos(den, e);
    lemma_round_upper(n, d, p);
    let m = div_round_half_even(n, d);
    let s = sig_end(p);
    if e >= 0 {
        assert(m * pow2(e as nat) * den * s <= num * 1 * (s + 1)) by (nonlinear_arith)
            requires
                m * d * s <= n * (s + 1),
                d == den * pow2(e as nat),
                n == num,
        ;
    } else {
        assert(m * den * s <= num * pow2((-e) as nat) * (s + 1)) by (nonlinear_arith)
            requires
                m * d * s <= n * (s + 1),
                d == den,
                n == num * pow2((-e) as nat),
        ;
    }
}

/// A quotient of at least 1 rounds to a value of at least 1.
pub(crate) proof fn lemma_value_at_least_one(num: nat, den: nat, p: nat)
    requires
        num >= den > 0,
        p >= 1,
    ensures
        value_num(rounded_quotient(num, den, p)) >= value_den(rounded_quotient(num, den, p)),
{
    lemma_value_lower(num, den, p);
    let r = rounded_quotient(num, den, p);
    lemma_value_den_pos(r);
    lemma_pow2_unfold(p);
    lemma_pow2_pos((p - 1) as nat);
    // m * 2^p >= (2^p - 1) * (num/den) * 2^-e... compare directly.
    lemma_binade_exists(num, den, p);
    let e = binade_exponent(num, den, p);
    let m = r.0;
    let n = scaled_num(num, e);
    let d = scaled_den(den, e);
    lemma_scaled_den_pos(den, e);
    assert(m >= sig_min(p)) by {
        vstd::arithmetic::div_mod::lemma_fundamental_div_mod(n as int, d as int);
        assert(n / d >= sig_min(p)) by (nonlinear_arith)
            requires
                sig_min(p) * d <= n,
                d > 0,
        ;
    }
    if e < 0 {
        // 2^-e * den <= num * 2^-e < 2^p * den, so 2^-e <= 2^(p-1) <= m.
        let k = (-e) as nat;
        assert(pow2(k) < sig_end(p)) by (nonlinear_arith)
            requires
                num * pow2(k) < sig_end(p) * den,
                num >= den,
                den > 0,
        ;
        if k >= p {
            if k > p {
                vstd::arithmetic::power2::lemma_pow2_strictly_increases(p, k);
            }
            assert(false);
        }
        if k < (p - 1) as nat {
            vstd::arithmetic::power2::lemma_pow2_strictly_increases(k, (p - 1) as nat);
        }
        assert(pow2(k) <= sig_min(p));
        assert(value_num(r) == m && value_den(r) == pow2(k));
    } else {
        lemma_pow2_pos(e as nat);
        assert(m * pow2(e as nat) >= 1) by (nonlinear_arith)
            requires
                m >= sig_min(p),
                sig_min(p) >= 1,
                pow2(e as nat) >= 1,
        ;
    }
}

/// Rounding to the nearest integer, ties to even, follows the order of
/// quotients: `n1 / d1 <= n2 / d2` gives rounded values in the same order.
proof fn lemma_round_half_even_monotone(n1: nat, d1: nat, n2: nat, d2: nat)
    requires
        d1 > 0,
        d2 > 0,
        n1 * d2 <= n2 * d1,
    ensures
        div_round_half_even(n1, d1) <= div_round_half_even(n2, d2),
{
    let q1 = n1 / d1;
    let r1 = n1 % d1;
    let q2 = n2 / d2;
    let r2 = n2 % d2;
    vstd::arithmetic::div_mod::lemma_fundamental_div_mod(n1 as int, d1 as int);
    vstd::arithmetic::div_mod::lemma_fundamental_div_mod(n2 as int, d2 as int);
    if q1 > q2 {
        assert(false) by (nonlinear_arith)
            requires
                n1 == d1 * q1 + r1,
                0 <= r1 < d1,
                n2 == d2 * q2 + r2,
                0 <= r2 < d2,
                q1 >= q2 + 1,
                n1 * d2 <= n2 * d1,
                d1 > 0,
                d2 > 0,
        ;
    }
    if q1 == q2 {
        assert(r1 * d2 <= r2 * d1) by (nonlinear_arith)
            requires
                n1 == d1 * q1 + r1,
                n2 == d2 * q2 + r2,
                q1 == q2,
                n1 * d2 <= n2 * d1,
        ;
        if 2 * r1 > d1 {
            assert(2 * r2 > d2) by (nonlinear_arith)
                requires
                    r1 * d2 <= r2 * d1,
                    2 * r1 > d1,
                    d1 > 0,
                    d2 > 0,
            ;
        } else if 2 * r1 == d1 {
            assert(2 * r2 >= d2) by (nonlinear_arith)
                requires
                    r1 * d2 <= r2 * d1,
                    2 * r1 == d1,
                    d1 > 0,
                    d2 > 0,
            ;
        }
    }
}

/// Comparing `m1 * 2^e1` with `m2 * 2^e2` for `e1 <= e2`: the first is at
/// most the second when `m1 <= m2 * 2^(e2 - e1)`.
proof fn lemma_value_compare(m1: nat, e1: int, m2: nat, e2: int)
    requires
        e1 <= e2,
        m1 <= m2 * pow2((e2 - e1) as nat),
    ensures
        value_num((m1, e1)) * value_den((m2, e2)) <= value_num((m2, e2)) * value_den((m1, e1)),
{
    let k = (e2 - e1) as nat;
    lemma_pow2_pos(k);
    if e1 >= 0 {
        vstd::arithmetic::power2::lemma_pow2_adds(k, e1 as nat);
        assert(pow2(e2 as nat) == pow2(k) * pow2(e1 as nat));
        lemma_pow2_pos(e1 as nat);
        assert(m1 * pow2(e1 as nat) * 1 <= m2 * pow2(e2 as nat) * 1) by (nonlinear_arith)
            requires
                m1 <= m2 * pow2(k),
                pow2(e2 as nat) == pow2(k) * pow2(e1 as nat),
                pow2(e1 as nat) > 0,
        ;
    } else if e2 >= 0 {
        vstd::arithmetic::power2::lemma_pow2_adds(e2 as nat, (-e1) as nat);
        assert(k == e2 as nat + (-e1) as nat);
        assert(m1 * 1 <= m2 * pow2(e2 as nat) * pow2((-e1) as nat)) by (nonlinear_arith)
            requires
                m1 <= m2 * pow2(k),
                pow2(k) == pow2(e2 as nat) * pow2((-e1) as nat),
        ;
    } else {
        vstd::arithmetic::power2::lemma_pow2_adds(k, (-e2) as nat);
        assert((-e1) as nat == k + (-e2) as nat);
        lemma_pow2_pos((-e2) as nat);
        assert(m1 * pow2((-e2) as nat) <= m2 * pow2((-e1) as nat)) by (nonlinear_arith)
            requires
                m1 <= m2 * pow2(k),
                pow2((-e1) as nat) == pow2(k) * pow2((-e2) as nat),
                pow2((-e2) as nat) > 0,
        ;
    }
}

/// Scaling by `2^-e` keeps the order of two quotients.
proof fn lemma_scaled_order(n1: nat, d1: nat, n2: nat, d2: nat, e: int)
    requires
        n1 * d2 <= n2 * d1,
    ensures
        scaled_num(n1, e) * scaled_den(d2, e) <= scaled_num(n2, e) * scaled_den(d1, e),
{
    if e >= 0 {
        let t = pow2(e as nat);
        assert(n1 * (d2 * t) <= n2 * (d1 * t)) by (nonlinear_arith)
            requires
                n1 * d2 <= n2 * d1,
                t >= 0,
        ;
    } else {
        let t = pow2((-e) as nat);
        assert(n1 * t * d2 <= n2 * t * d1) by (nonlinear_arith)
            requires
                n1 * d2 <= n2 * d1,
                t >= 0,
        ;
    }
}

/// Rounding to precision `p` follows the order of quotients: when
/// `n1 / d1 <= n2 / d2`, the value of the rounded first is at most that of
/// the rounded second.
pub(crate) proof fn lemma_rounded_monotone(n1: nat, d1: nat, n2: nat, d2: nat, p: nat)
    requires
        d1 > 0,
        d2 > 0,
        p >= 1,
        n1 * d2 <= n2 * d1,
    ensures
        value_num(rounded_quotient(n1, d1, p)) * value_den(rounded_quotient(n2, d2, p)) <= value_num(
            rounded_quotient(n2, d2, p),
        ) * value_den(rounded_quotient(n1, d1, p)),
{
    let a = rounded_quotient(n1, d1, p);
    let b = rounded_quotient(n2, d2, p);
    lemma_value_den_pos(a);
    lemma_value_den_pos(b);
    if n1 == 0 {
        vstd::arithmetic::power2::lemma2_to64();
        assert(value_num(a) == 0);
        return;
    }
    assert(n2 > 0) by (nonlinear_arith)
        requires
            n1 * d2 <= n2 * d1,
            n1 > 0,
            d2 > 0,
    ;
    lemma_binade_exists(n1, d1, p);
    lemma_binade_exists(n2, d2, p);
    let e1 = binade_exponent(n1, d1, p);
    let e2 = binade_exponent(n2, d2, p);
    let t = sig_min(p);
    lemma_pow2_unfold(p);
    lemma_pow2_pos((p - 1) as nat);
    if e1 > e2 {
        lemma_below_later(n2, d2, e2, (e1 - e2) as nat, p);
        assert(e2 + (e1 - e2) as nat == e1);
        lemma_scaled_order(n1, d1, n2, d2, e1);
        lemma_scaled_den_pos(d1, e1);
        lemma_scaled_den_pos(d2, e1);
        let a1 = scaled_num(n1, e1);
        let b1 = scaled_den(d1, e1);
        let a2 = scaled_num(n2, e1);
        let b2 = scaled_den(d2, e1);
        assert(false) by (nonlinear_arith)
            requires
                t * b1 <= a1,
                a2 < t * b2,
                a1 * b2 <= a2 * b1,
                b1 > 0,
                b2 > 0,
        ;
    }
    let sn1 = scaled_num(n1, e1);
    let sd1 = scaled_den(d1, e1);
    let sn2 = scaled_num(n2, e2);
    let sd2 = scaled_den(d2, e2);
    lemma_scaled_den_pos(d1, e1);
    lemma_scaled_den_pos(d2, e2);
    let m1 = div_round_half_even(sn1, sd1);
    let m2 = div_round_half_even(sn2, sd2);
    assert(a == (m1, e1));
    assert(b == (m2, e2));
    if e1 == e2 {
        lemma_scaled_order(n1, d1, n2, d2, e1);
        lemma_round_half_even_monotone(sn1, sd1, sn2, sd2);
        vstd::arithmetic::power2::lemma2_to64();
        assert(m1 <= m2 * pow2(0));
        lemma_value_compare(m1, e1, m2, e2);
    } else {
        // m1 <= 2^p = 2 * 2^(p-1) <= m2 * 2^(e2 - e1).
        let k = (e2 - e1) as nat;
        vstd::arithmetic::div_mod::lemma_fundamental_div_mod(sn1 as int, sd1 as int);
        vstd::arithmetic::div_mod::lemma_fundamental_div_mod(sn2 as int, sd2 as int);
        assert(sn1 / sd1 < 2 * t) by (nonlinear_arith)
            requires
                sn1 < 2 * t * sd1,
                sd1 > 0,
                sn1 == sd1 * (sn1 / sd1) + sn1 % sd1,
                0 <= sn1 % sd1,
        ;
        assert(m1 <= 2 * t);
        assert(sn2 / sd2 >= t) by (nonlinear_arith)
            requires
                t * sd2 <= sn2,
                sd2 > 0,
                sn2 == sd2 * (sn2 / sd2) + sn2 % sd2,
                sn2 % sd2 < sd2,
        ;
        assert(m2 >= t);
        lemma_pow2_unfold(k);
        lemma_pow2_pos((k - 1) as nat);
        assert(m1 <= m2 * pow2(k)) by (nonlinear_arith)
            requires
                m1 <= 2 * t,
                m2 >= t,
                pow2(k) == 2 * pow2((k - 1) as nat),
                pow2((k - 1) as nat) >= 1,
        ;
        lemma_value_compare(m1, e1, m2, e2);
    }
}

/// `|x|`.
pub open spec fn abs_int(x: int) -> nat {
    if x >= 0 {
        x as nat
    } else {
        (-x) as nat
    }
}

/// Scaling by `2^-e` written without a case on the sign of `e`:
/// `scaled_num(n, e) * d * 2^(k+e) == n * scaled_den(d, e) * 2^k` for
/// `k >= |e|`.
proof fn lemma_scaled_uniform(n: nat, d: nat, e: int, k: nat)
    requires
        k >= abs_int(e),
    ensures
        scaled_num(n, e) * d * pow2((k + e) as nat) == n * scaled_den(d, e) * pow2(k),
{
    if e >= 0 {
        vstd::arithmetic::power2::lemma_pow2_adds(k, e as nat);
        assert(n * d * pow2((k + e) as nat) == n * (d * pow2(e as nat)) * pow2(k)) by (nonlinear_arith)
            requires
                pow2((k + e) as nat) == pow2(k) * pow2(e as nat),
        ;
    } else {
        vstd::arithmetic::power2::lemma_pow2_adds((k + e) as nat, (-e) as nat);
        assert(n * pow2((-e) as nat) * d * pow2((k + e) as nat) == n * d * pow2(k)) by (nonlinear_arith)
            requires
                pow2(k) == pow2((k + e) as nat) * pow2((-e) as nat),
        ;
    }
}

/// The value of `(m, e)` written without a case on the sign of `e`:
/// `value_num * 2^k == m * value_den * 2^(k+e)` for `k >= |e|`.
proof fn lemma_value_uniform(m: nat, e: int, k: nat)
    requires
        k >= abs_int(e),
    ensures
        value_num((m, e)) * pow2(k) == m * value_den((m, e)) * pow2((k + e) as nat),
{
    if e >= 0 {
        vstd::arithmetic::power2::lemma_pow2_adds(k, e as nat);
        assert(m * pow2(e as nat) * pow2(k) == m * 1 * pow2((k + e) as nat)) by (nonlinear_arith)
            requires
                pow2((k + e) as nat) == pow2(k) * pow2(e as nat),
        ;
    } else {
        vstd::arithmetic::power2::lemma_pow2_adds((k + e) as nat, (-e) as nat);
        assert(m * pow2(k) == m * pow2((-e) as nat) * pow2((k + e) as nat)) by (nonlinear_arith)
            requires
                pow2(k) == pow2((k + e) as nat) * pow2((-e) as nat),
        ;
    }
}

/// Rounding the quotient of `mu * 2^eu` by `mc * 2^ec` gives the rounded
/// quotient of the significands `mu / mc`, with its exponent shifted by
/// `eu - ec`.
pub(crate) proof fn lemma_rounded_shift(mu: nat, eu: int, mc: nat, ec: int, p: nat)
    requires
        mu > 0,
        mc > 0,
        p >= 1,
    ensures
        rounded_quotient(
            value_num((mu, eu)) * value_den((mc, ec)),
            value_den((mu, eu)) * value_num((mc, ec)),
            p,
        ) == (rounded_quotient(mu, mc, p).0, rounded_quotient(mu, mc, p).1 + eu - ec),
{
    let vu_n = value_num((mu, eu));
    let vu_d = value_den((mu, eu));
    let vc_n = value_num((mc, ec));
    let vc_d = value_den((mc, ec));
    lemma_value_den_pos((mu, eu));
    lemma_value_den_pos((mc, ec));
    lemma_binade_exists(mu, mc, p);
    let eq = binade_exponent(mu, mc, p);
    let e2 = eq + eu - ec;
    let k = abs_int(eu) + abs_int(ec) + abs_int(eq) + abs_int(e2);
    let n = vu_n * vc_d;
    let d = vu_d * vc_n;
    let pk = pow2(k);
    let pu = pow2((k + eu) as nat);
    let pc = pow2((k + ec) as nat);
    let pq = pow2((k + eq) as nat);
    let p2 = pow2((k + e2) as nat);
    lemma_pow2_pos(k);
    lemma_pow2_pos((k + ec) as nat);
    lemma_pow2_pos((k + eq) as nat);
    lemma_pow2_pos((k + e2) as nat);
    lemma_value_uniform(mu, eu, k);
    lemma_value_uniform(mc, ec, k);
    vstd::arithmetic::power2::lemma_pow2_adds((k + eu) as nat, (k + eq) as nat);
    vstd::arithmetic::power2::lemma_pow2_adds((k + e2) as nat, (k + ec) as nat);
    assert((k + eu) as nat + (k + eq) as nat == (k + e2) as nat + (k + ec) as nat);
    assert(pu * pq == p2 * pc);
    // The value of the quotient: n * mc * 2^(k+ec) == mu * d * 2^(k+eu).
    assert(vu_n * pk == mu * vu_d * pu);
    assert(vc_n * pk == mc * vc_d * pc);
    lemma_pow2_pos((k + eu) as nat);
    assert(n * pk == (mu * vu_d * pu) * vc_d) by (nonlinear_arith)
        requires
            vu_n * pk == mu * vu_d * pu,
            n == vu_n * vc_d,
    ;
    assert(d * pk == vu_d * (mc * vc_d * pc)) by (nonlinear_arith)
        requires
            vc_n * pk == mc * vc_d * pc,
            d == vu_d * vc_n,
    ;
    let x = n * pk;
    let y = d * pk;
    assert(x * (mc * pc) == y * (mu * pu)) by (nonlinear_arith)
        requires
            x == (mu * vu_d * pu) * vc_d,
            y == vu_d * (mc * vc_d * pc),
    ;
    assert((n * mc * pc) * pk == (mu * d * pu) * pk) by (nonlinear_arith)
        requires
            x * (mc * pc) == y * (mu * pu),
            x == n * pk,
            y == d * pk,
    ;
    assert(n * mc * pc == mu * d * pu) by (nonlinear_arith)
        requires
            (n * mc * pc) * pk == (mu * d * pu) * pk,
            pk > 0,
    ;
    assert(n * mc * pq == mu * d * p2) by (nonlinear_arith)
        requires
            n * mc * pc == mu * d * pu,
            pu * pq == p2 * pc,
            pc > 0,
    ;
    assert(n > 0 && d > 0) by (nonlinear_arith)
        requires
            n * mc * pc == mu * d * pu,
            n == vu_n * vc_d,
            d == vu_d * vc_n,
            vu_d >= 1,
            vc_d >= 1,
            vu_n * pk == mu * vu_d * pu,
            vc_n * pk == mc * vc_d * pc,
            mu > 0,
            mc > 0,
            pk > 0,
            pc > 0,
            pow2((k + eu) as nat) > 0,
            pu == pow2((k + eu) as nat),
    ;
    // Scaled forms of both quotients.
    let a1 = scaled_num(n, e2);
    let b1 = scaled_den(d, e2);
    let a0 = scaled_num(mu, eq);
    let b0 = scaled_den(mc, eq);
    lemma_scaled_uniform(n, d, e2, k);
    lemma_scaled_uniform(mu, mc, eq, k);
    lemma_scaled_den_pos(d, e2);
    lemma_scaled_den_pos(mc, eq);
    assert(a1 * d * p2 == n * b1 * pk);
    assert(a0 * mc * pq == mu * b0 * pk);
    let w = n * mc * pq;
    assert((a1 * b0) * (d * p2 * mc * pq) == (a1 * d * p2) * (b0 * mc * pq)) by (nonlinear_arith);
    assert((a1 * d * p2) * (b0 * mc * pq) == (n * b1 * pk) * (b0 * mc * pq)) by (nonlinear_arith)
        requires
            a1 * d * p2 == n * b1 * pk,
    ;
    assert((n * b1 * pk) * (b0 * mc * pq) == w * (b1 * pk * b0)) by (nonlinear_arith)
        requires
            w == n * mc * pq,
    ;
    assert((a0 * b1) * (d * p2 * mc * pq) == (a0 * mc * pq) * (b1 * d * p2)) by (nonlinear_arith);
    assert((a0 * mc * pq) * (b1 * d * p2) == (mu * b0 * pk) * (b1 * d * p2)) by (nonlinear_arith)
        requires
            a0 * mc * pq == mu * b0 * pk,
    ;
    assert((mu * b0 * pk) * (b1 * d * p2) == (mu * d * p2) * (b1 * pk * b0)) by (nonlinear_arith);
    assert(a1 * b0 * (d * p2 * mc * pq) == a0 * b1 * (d * p2 * mc * pq)) by (nonlinear_arith)
        requires
            (a1 * b0) * (d * p2 * mc * pq) == w * (b1 * pk * b0),
            (a0 * b1) * (d * p2 * mc * pq) == (mu * d * p2) * (b1 * pk * b0),
            w == mu * d * p2,
    ;
    assert(d * p2 * mc * pq > 0) by (nonlinear_arith)
        requires
            d > 0,
            p2 > 0,
            mc > 0,
            pq > 0,
    ;
    assert(a1 * b0 == a0 * b1) by (nonlinear_arith)
        requires
            a1 * b0 * (d * p2 * mc * pq) == a0 * b1 * (d * p2 * mc * pq),
            d * p2 * mc * pq > 0,
    ;
    // Same binade, same rounding.
    let t = sig_min(p);
    let top = sig_end(p);
    assert(t * b1 <= a1 && a1 < top * b1) by (nonlinear_arith)
        requires
            t * b0 <= a0,
            a0 < top * b0,
            a1 * b0 == a0 * b1,
            b0 > 0,
            b1 > 0,
    ;
    assert(in_binade(n, d, e2, p));
    lemma_binade_exponent(n, d, e2, p);
    lemma_round_half_even_monotone(a1, b1, a0, b0);
    lemma_round_half_even_monotone(a0, b0, a1, b1);
}

/// A binary floating-point number `significand * 2^exponent`.
#[derive(Debug, Clone, Copy, PartialEq, Eq, Structural)]
pub struct BinaryFloat {
    /// Significand.
    pub significand: u128,
    /// Power of two it is scaled by.
    pub exponent: i32,
}

/// `num as f32 / den as f32`: both integers converted to binary32, then
/// the quotient rounded to binary32.
pub open spec fn binary32_ratio(num: nat, den: nat) -> (nat, int) {
    let n = binary32_quotient(num, 1);
    let d = binary32_quotient(den, 1);
    binary32_quotient(value_num(n) * value_den(d), value_den(n) * value_num(d))
}

/// `num as f32 / den as f32` for a positive `den` below 2^64 (see
/// [`binary32_ratio`]).
pub fn binary32_ratio_value(num: u64, den: u64) -> (r: BinaryFloat)
    requires
        den > 0,
    ensures
        r.significand == binary32_ratio(num as nat, den as nat).0,
        r.exponent == binary32_ratio(num as nat, den as nat).1,
{
    proof {
        lemma_precision_tops();
    }
    if num == 0 {
        proof {
            lemma_zero_value();
        }
        assert(binary32_quotient(0, 1) == (0nat, 0int));
        assert(value_num((0nat, 0int)) == 0);
        let ghost dd = binary32_quotient(den as nat, 1);
        assert(binary32_quotient(0 * value_den(dd), value_den((0nat, 0int)) * value_num(dd)) == (0nat, 0int));
        return BinaryFloat { significand: 0, exponent: 0 };
    }
    let u = nearest_rounded(num as u128, 1, 24);
    let c = nearest_rounded(den as u128, 1, 24);
    let q = nearest_rounded(u.0, c.0, 24);
    proof {
        lemma_rounded_shift(u.0 as nat, u.1 as int, c.0 as nat, c.1 as int, 24);
    }
    BinaryFloat { significand: q.0, exponent: q.1 + u.1 - c.1 }
}

/// The value of `(part as f64 / count as f64) * 100.0` as `(numerator,
/// denominator)`.
pub fn counter_percentage_parts(part: u64, count: u64) -> (v: (u128, u128))
    requires
        part <= count,
        1 <= count <= 1024,
    ensures
        v.0 == value_num(counter_percentage(part as nat, count as nat)),
        v.1 == value_den(counter_percentage(part as nat, count as nat)),
        0 < v.1 <= 0x4000_0000_0000_0000,
{
    let p = counter_percentage_value(part, count);
    value_parts(p)
}

} // verus!

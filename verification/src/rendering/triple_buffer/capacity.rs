//! Buffer capacity policy: grow by three halves on reallocation, by nine
//! quarters (three halves twice) on the first allocation, never below one
//! page; and the human-readable byte counts used in reports.

use vstd::prelude::*;

use super::constants::MIN_BUFFER_CAPACITY;
use crate::binary64::{
    binary32_quotient, ceil_value, counter_over_pow2_text, lemma_precision_tops, lemma_value_at_least_one,
    lemma_rounded_monotone, lemma_value_den_pos, lemma_value_lower, lemma_value_upper, lemma_zero_value, nearest_rounded, push_counter_over_pow2,
    sig_end, times_three_halves32, value_den, value_num, value_parts,
};
use crate::text::{decimal, push_char, push_decimal};

verus! {

/// `required as f32 * 1.5`: the byte count converted to binary32, then
/// multiplied by the growth factor with the product rounded to binary32.
pub open spec fn grown_value(required: nat) -> (nat, int) {
    times_three_halves32(binary32_quotient(required, 1))
}

/// `required as f32 * 1.5 * 1.5`, rounded to binary32 after each product.
pub open spec fn initial_value(required: nat) -> (nat, int) {
    times_three_halves32(grown_value(required))
}

/// `value.ceil() as usize`: the ceiling, saturated at `usize::MAX`.
pub open spec fn saturating_ceil(d: (nat, int)) -> nat {
    let c = ceil_value(d);
    if c > usize::MAX {
        usize::MAX as nat
    } else {
        c
    }
}

/// Capacity recommended when a buffer must grow to hold `required` bytes:
/// the grown value rounded up, at least [`MIN_BUFFER_CAPACITY`].
pub open spec fn grown_capacity(required: nat) -> nat {
    let g = saturating_ceil(grown_value(required));
    if g >= MIN_BUFFER_CAPACITY {
        g
    } else {
        MIN_BUFFER_CAPACITY as nat
    }
}

/// Capacity recommended for the first allocation of `required` bytes: the
/// growth factor applied twice, rounded up, at least
/// [`MIN_BUFFER_CAPACITY`].
pub open spec fn initial_capacity(required: nat) -> nat {
    let g = saturating_ceil(initial_value(required));
    if g >= MIN_BUFFER_CAPACITY {
        g
    } else {
        MIN_BUFFER_CAPACITY as nat
    }
}

/// `value.ceil() as usize` for a value given as `(numerator, denominator)`.
fn ceil_to_usize(v: (u128, u128)) -> (c: usize)
    requires
        0 < v.1 <= 0x4000_0000_0000_0000,
        v.0 <= 0x1_0000_0000_0000_0000_0000_0000,
    ensures
        c == (if (v.0 + v.1 - 1) / (v.1 as int) > usize::MAX {
            usize::MAX as int
        } else {
            (v.0 + v.1 - 1) / (v.1 as int)
        }),
{
    let q = (v.0 + v.1 - 1) / v.1;
    if q > usize::MAX as u128 {
        usize::MAX
    } else {
        q as usize
    }
}

/// Value parts of `required as f32 * 1.5` and of a second `* 1.5`.
fn growth_values(required: usize) -> (r: ((u128, u128), (u128, u128)))
    requires
        required >= 1,
    ensures
        r.0.0 == value_num(grown_value(required as nat)),
        r.0.1 == value_den(grown_value(required as nat)),
        r.1.0 == value_num(initial_value(required as nat)),
        r.1.1 == value_den(initial_value(required as nat)),
        0 < r.0.1 <= 0x4000_0000_0000_0000,
        0 < r.1.1 <= 0x4000_0000_0000_0000,
        r.0.0 <= 0x1_0000_0000_0000_0000_0000_0000,
        r.1.0 <= 0x1_0000_0000_0000_0000_0000_0000,
{
    proof {
        lemma_precision_tops();
        lemma_value_at_least_one(required as nat, 1, 24);
    }
    let f = nearest_rounded(required as u128, 1, 24);
    let vf = value_parts(f);
    proof {
        lemma_value_at_least_one(3 * vf.0 as nat, 2 * vf.1 as nat, 24);
    }
    let g = nearest_rounded(3 * vf.0, 2 * vf.1, 24);
    let vg = value_parts(g);
    proof {
        lemma_value_at_least_one(3 * vg.0 as nat, 2 * vg.1 as nat, 24);
    }
    let h = nearest_rounded(3 * vg.0, 2 * vg.1, 24);
    let vh = value_parts(h);
    (vg, vh)
}

/// Capacity for a reallocation: `required_size as f32 * 1.5` rounded up,
/// at least [`MIN_BUFFER_CAPACITY`] (see [`grown_capacity`]).
pub fn calculate_grown_capacity(required_size: usize) -> (capacity: usize)
    ensures
        capacity == grown_capacity(required_size as nat),
        capacity >= required_size,
        capacity >= MIN_BUFFER_CAPACITY,
{
    proof {
        lemma_capacities_cover(required_size as nat);
    }
    if required_size == 0 {
        proof {
            lemma_zero_growth();
        }
        return MIN_BUFFER_CAPACITY;
    }
    let (vg, _) = growth_values(required_size);
    let c = ceil_to_usize(vg);
    if c >= MIN_BUFFER_CAPACITY {
        c
    } else {
        MIN_BUFFER_CAPACITY
    }
}

/// Capacity for the first allocation: `required_size as f32 * 1.5 * 1.5`
/// rounded up, at least [`MIN_BUFFER_CAPACITY`] (see [`initial_capacity`]).
pub fn calculate_initial_capacity(required_size: usize) -> (capacity: usize)
    ensures
        capacity == initial_capacity(required_size as nat),
        capacity >= required_size,
        capacity >= MIN_BUFFER_CAPACITY,
{
    proof {
        lemma_capacities_cover(required_size as nat);
        lemma_initial_at_least_grown(required_size as nat);
    }
    if required_size == 0 {
        proof {
            lemma_zero_growth();
        }
        return MIN_BUFFER_CAPACITY;
    }
    let (_, vh) = growth_values(required_size);
    let c = ceil_to_usize(vh);
    if c >= MIN_BUFFER_CAPACITY {
        c
    } else {
        MIN_BUFFER_CAPACITY
    }
}

/// No bytes grow to no bytes.
proof fn lemma_zero_growth()
    ensures
        grown_capacity(0) == MIN_BUFFER_CAPACITY,
        initial_capacity(0) == MIN_BUFFER_CAPACITY,
{
    lemma_zero_value();
    assert(binary32_quotient(0, 1) == (0nat, 0int));
    assert(grown_value(0) == binary32_quotient(0, 2));
    assert(binary32_quotient(0, 2) == (0nat, 0int));
    assert(ceil_value((0nat, 0int)) == 0);
}

/// `ceil` follows the order of values.
proof fn lemma_ceil_monotone(a: (nat, int), b: (nat, int))
    requires
        value_num(a) * value_den(b) <= value_num(b) * value_den(a),
    ensures
        ceil_value(a) <= ceil_value(b),
{
    lemma_value_den_pos(a);
    lemma_value_den_pos(b);
    let an = value_num(a);
    let ad = value_den(a);
    let bn = value_num(b);
    let bd = value_den(b);
    let ca = ceil_value(a);
    let cb = ceil_value(b);
    vstd::arithmetic::div_mod::lemma_fundamental_div_mod((an + ad - 1) as int, ad as int);
    vstd::arithmetic::div_mod::lemma_fundamental_div_mod((bn + bd - 1) as int, bd as int);
    // (ca - 1) * ad < an, and bn <= cb * bd.
    assert((ca - 1) * ad < an) by (nonlinear_arith)
        requires
            an + ad - 1 == ad * ca + (an + ad - 1) % (ad as int),
            0 <= (an + ad - 1) % (ad as int) < ad,
            ad >= 1,
    ;
    assert(bn <= cb * bd) by (nonlinear_arith)
        requires
            bn + bd - 1 == bd * cb + (bn + bd - 1) % (bd as int),
            0 <= (bn + bd - 1) % (bd as int) < bd,
            bd >= 1,
    ;
    assert(ca <= cb) by (nonlinear_arith)
        requires
            (ca - 1) * ad < an,
            bn <= cb * bd,
            an * bd <= bn * ad,
            ad >= 1,
            bd >= 1,
    ;
}

/// A value of at least `n` has a ceiling of at least `n`.
proof fn lemma_ceil_at_least(d: (nat, int), n: nat)
    requires
        value_num(d) >= n * value_den(d),
    ensures
        ceil_value(d) >= n,
{
    lemma_value_den_pos(d);
    let dn = value_num(d);
    let dd = value_den(d);
    assert((dn + dd - 1) / (dd as int) >= n) by (nonlinear_arith)
        requires
            dn >= n * dd,
            dd >= 1,
    ;
}

/// A growth always leaves room for the requested size and for a page:
/// `calculate_grown_capacity(n) >= n` and `calculate_initial_capacity(n) >= n`
/// for every byte count `n`, both at least [`MIN_BUFFER_CAPACITY`].
pub proof fn lemma_capacities_cover(required: nat)
    requires
        required <= usize::MAX,
    ensures
        required <= grown_capacity(required) <= usize::MAX,
        required <= initial_capacity(required) <= usize::MAX,
        grown_capacity(required) >= MIN_BUFFER_CAPACITY,
        initial_capacity(required) >= MIN_BUFFER_CAPACITY,
{
    if required == 0 {
        lemma_zero_growth();
        return;
    }
    let s = sig_end(24);
    lemma_precision_tops();
    let f = binary32_quotient(required, 1);
    lemma_value_lower(required, 1, 24);
    lemma_value_at_least_one(required, 1, 24);
    lemma_value_den_pos(f);
    let fn_ = value_num(f);
    let fd = value_den(f);
    let g = grown_value(required);
    lemma_value_lower(3 * fn_, 2 * fd, 24);
    lemma_value_den_pos(g);
    let gn = value_num(g);
    let gd = value_den(g);
    // g >= 1.5 * (1 - 2^-24)^2 * required >= required.
    assert(gn * (2 * fd) * s >= (3 * fn_) * gd * (s - 1));
    assert(gn * 2 * fd * s >= 3 * fn_ * gd * (s - 1)) by (nonlinear_arith)
        requires
            gn * (2 * fd) * s >= (3 * fn_) * gd * (s - 1),
    ;
    assert(fn_ * s >= required * fd * (s - 1)) by (nonlinear_arith)
        requires
            fn_ * 1 * s >= required * fd * (s - 1),
    ;
    assert(gn * 2 * fd * s * s >= 3 * required * fd * (s - 1) * gd * (s - 1)) by (nonlinear_arith)
        requires
            gn * 2 * fd * s >= 3 * fn_ * gd * (s - 1),
            fn_ * s >= required * fd * (s - 1),
            s == 0x100_0000,
            gd >= 1,
    ;
    assert(gn >= required * gd) by (nonlinear_arith)
        requires
            gn * 2 * fd * s * s >= 3 * required * fd * (s - 1) * gd * (s - 1),
            s == 0x100_0000,
            fd >= 1,
    ;
    lemma_ceil_at_least(g, required);
    lemma_initial_at_least_grown(required);
}

/// The first allocation never gets less headroom than a later growth:
/// `calculate_initial_capacity(n) >= calculate_grown_capacity(n)` for every `n`.
pub proof fn lemma_initial_at_least_grown(required: nat)
    requires
        required <= usize::MAX,
    ensures
        initial_capacity(required) >= grown_capacity(required),
{
    if required == 0 {
        lemma_zero_growth();
        return;
    }
    let s = sig_end(24);
    lemma_precision_tops();
    let g = grown_value(required);
    let h = initial_value(required);
    lemma_value_den_pos(g);
    let gn = value_num(g);
    let gd = value_den(g);
    lemma_value_at_least_one(required, 1, 24);
    let f = binary32_quotient(required, 1);
    lemma_value_den_pos(f);
    if gn == 0 {
        // A zero value: the ceiling of h is at least that of g, which is 0.
        assert(ceil_value(g) == 0) by (nonlinear_arith)
            requires
                gn == 0,
                gd >= 1,
                ceil_value(g) == ((gn + gd - 1) as nat) / gd,
        ;
    } else {
        lemma_value_lower(3 * gn, 2 * gd, 24);
        lemma_value_den_pos(h);
        let hn = value_num(h);
        let hd = value_den(h);
        assert(hn * (2 * gd) * s >= (3 * gn) * hd * (s - 1));
        assert(hn * 2 * gd * s >= 3 * gn * hd * (s - 1)) by (nonlinear_arith)
            requires
                hn * (2 * gd) * s >= (3 * gn) * hd * (s - 1),
        ;
        assert(gn * hd <= hn * gd) by (nonlinear_arith)
            requires
                hn * 2 * gd * s >= 3 * gn * hd * (s - 1),
                s == 0x100_0000,
        ;
        lemma_ceil_monotone(g, h);
    }
}

/// Capacities follow the request: for byte counts `a <= b`,
/// `calculate_grown_capacity(a) <= calculate_grown_capacity(b)` and
/// `calculate_initial_capacity(a) <= calculate_initial_capacity(b)`.
pub proof fn lemma_capacities_monotone(a: nat, b: nat)
    requires
        a <= b,
    ensures
        grown_capacity(a) <= grown_capacity(b),
        initial_capacity(a) <= initial_capacity(b),
{
    lemma_rounded_monotone(a, 1, b, 1, 24);
    let fa = binary32_quotient(a, 1);
    let fb = binary32_quotient(b, 1);
    lemma_value_den_pos(fa);
    lemma_value_den_pos(fb);
    lemma_times_three_halves_monotone(fa, fb);
    let ga = grown_value(a);
    let gb = grown_value(b);
    lemma_times_three_halves_monotone(ga, gb);
    lemma_ceil_monotone(ga, gb);
    lemma_ceil_monotone(initial_value(a), initial_value(b));
}

/// `d * 1.5` rounded to binary32 follows the order of `d`.
proof fn lemma_times_three_halves_monotone(x: (nat, int), y: (nat, int))
    requires
        value_num(x) * value_den(y) <= value_num(y) * value_den(x),
    ensures
        value_num(times_three_halves32(x)) * value_den(times_three_halves32(y)) <= value_num(
            times_three_halves32(y),
        ) * value_den(times_three_halves32(x)),
{
    lemma_value_den_pos(x);
    lemma_value_den_pos(y);
    let xn = value_num(x);
    let xd = value_den(x);
    let yn = value_num(y);
    let yd = value_den(y);
    assert((3 * xn) * (2 * yd) <= (3 * yn) * (2 * xd)) by (nonlinear_arith)
        requires
            xn * yd <= yn * xd,
    ;
    lemma_rounded_monotone(3 * xn, 2 * xd, 3 * yn, 2 * yd, 24);
}

/// Above one page, the first allocation gets strictly more room than a
/// later growth: `calculate_initial_capacity(n) > calculate_grown_capacity(n)`
/// whenever `MIN_BUFFER_CAPACITY < calculate_grown_capacity(n) < usize::MAX`
/// (for instance every `n` from 2731 bytes up to 5,000,000 and well beyond).
pub proof fn lemma_initial_exceeds_grown(required: nat)
    requires
        MIN_BUFFER_CAPACITY < grown_capacity(required) < usize::MAX,
    ensures
        initial_capacity(required) > grown_capacity(required),
{
    if required == 0 {
        lemma_zero_growth();
        return;
    }
    let s = sig_end(24);
    lemma_precision_tops();
    let g = grown_value(required);
    let h = initial_value(required);
    lemma_value_den_pos(g);
    lemma_value_den_pos(h);
    let gn = value_num(g);
    let gd = value_den(g);
    let cg = ceil_value(g);
    assert(cg == grown_capacity(required));
    vstd::arithmetic::div_mod::lemma_fundamental_div_mod((gn + gd - 1) as int, gd as int);
    assert(cg * gd < gn + gd) by (nonlinear_arith)
        requires
            gn + gd - 1 == gd * cg + (gn + gd - 1) % (gd as int),
            0 <= (gn + gd - 1) % (gd as int),
    ;
    assert(gn > 4095 * gd) by (nonlinear_arith)
        requires
            cg * gd < gn + gd,
            cg > 4096,
            gd >= 1,
    ;
    lemma_value_lower(3 * gn, 2 * gd, 24);
    let hn = value_num(h);
    let hd = value_den(h);
    assert(hn * (2 * gd) * s >= (3 * gn) * hd * (s - 1));
    // h >= 1.5 * g * (1 - 2^-24) > g + 1 > ceil(g).
    assert(3 * gn * (s - 1) > 2 * s * (gn + gd)) by (nonlinear_arith)
        requires
            gn > 4095 * gd,
            gd >= 1,
            s == 0x100_0000,
    ;
    assert(hn * gd > cg * gd * hd) by (nonlinear_arith)
        requires
            hn * (2 * gd) * s >= (3 * gn) * hd * (s - 1),
            3 * gn * (s - 1) > 2 * s * (gn + gd),
            cg * gd < gn + gd,
            hd >= 1,
            gd >= 1,
            s == 0x100_0000,
    ;
    assert(hn > cg * hd) by (nonlinear_arith)
        requires
            hn * gd > cg * gd * hd,
            gd >= 1,
    ;
    let ch = ceil_value(h);
    vstd::arithmetic::div_mod::lemma_fundamental_div_mod((hn + hd - 1) as int, hd as int);
    assert(ch * hd >= hn) by (nonlinear_arith)
        requires
            hn + hd - 1 == hd * ch + (hn + hd - 1) % (hd as int),
            (hn + hd - 1) % (hd as int) < hd,
    ;
    assert(ch > cg) by (nonlinear_arith)
        requires
            ch * hd >= hn,
            hn > cg * hd,
            hd >= 1,
    ;
}

/// The strict headroom holds for every request up to 5,000,000 bytes whose
/// growth is above one page: `calculate_initial_capacity(n) >
/// calculate_grown_capacity(n)` whenever `n <= 5_000_000` and
/// `calculate_grown_capacity(n) > MIN_BUFFER_CAPACITY`.
pub proof fn lemma_initial_exceeds_grown_up_to_five_million(required: nat)
    requires
        required <= 5_000_000,
        grown_capacity(required) > MIN_BUFFER_CAPACITY,
    ensures
        initial_capacity(required) > grown_capacity(required),
{
    if required == 0 {
        lemma_zero_growth();
        return;
    }
    // The growth stays far below `usize::MAX`: g <= 1.5 * n * (1 + 2^-24)^2.
    let s = sig_end(24);
    lemma_precision_tops();
    let f = binary32_quotient(required, 1);
    lemma_value_upper(required, 1, 24);
    lemma_value_at_least_one(required, 1, 24);
    lemma_value_den_pos(f);
    let fn_ = value_num(f);
    let fd = value_den(f);
    let g = grown_value(required);
    lemma_value_upper(3 * fn_, 2 * fd, 24);
    lemma_value_den_pos(g);
    let gn = value_num(g);
    let gd = value_den(g);
    assert(fn_ * s <= required * fd * (s + 1)) by (nonlinear_arith)
        requires
            fn_ * 1 * s <= required * fd * (s + 1),
    ;
    assert(gn * (2 * fd) * s <= (3 * fn_) * gd * (s + 1));
    assert(gn <= 8_000_000 * gd) by (nonlinear_arith)
        requires
            gn * (2 * fd) * s <= (3 * fn_) * gd * (s + 1),
            fn_ * s <= required * fd * (s + 1),
            required <= 5_000_000,
            s == 0x100_0000,
            fd >= 1,
            gd >= 1,
    ;
    lemma_ceil_at_most(g, 8_000_000);
    lemma_initial_exceeds_grown(required);
}

/// A value of at most `n` has a ceiling of at most `n`.
proof fn lemma_ceil_at_most(d: (nat, int), n: nat)
    requires
        value_num(d) <= n * value_den(d),
    ensures
        ceil_value(d) <= n,
{
    lemma_value_den_pos(d);
    let dn = value_num(d);
    let dd = value_den(d);
    assert((dn + dd - 1) / (dd as int) <= n) by (nonlinear_arith)
        requires
            dn <= n * dd,
            dd >= 1,
    ;
}

/// How [`format_bytes`] writes a byte count: `bytes as f64` divided by
/// 2^20 or 2^10 with two decimals, or the plain count.
pub open spec fn byte_size_text(bytes: nat) -> Seq<char> {
    if bytes >= 1024 * 1024 {
        counter_over_pow2_text(bytes, 20, 2) + seq![' ', 'M', 'B']
    } else if bytes >= 1024 {
        counter_over_pow2_text(bytes, 10, 2) + seq![' ', 'K', 'B']
    } else {
        decimal(bytes) + seq![' ', 'B']
    }
}

/// Appends [`byte_size_text`] of `bytes`.
pub fn push_bytes(s: &mut String, bytes: usize)
    ensures
        final(s)@ == old(s)@ + byte_size_text(bytes as nat),
{
    proof {
        vstd::arithmetic::power2::lemma2_to64();
    }
    if bytes >= 1024 * 1024 {
        push_counter_over_pow2(s, bytes as u128, 20, 2);
        push_char(s, ' ');
        push_char(s, 'M');
        push_char(s, 'B');
    } else if bytes >= 1024 {
        push_counter_over_pow2(s, bytes as u128, 10, 2);
        push_char(s, ' ');
        push_char(s, 'K');
        push_char(s, 'B');
    } else {
        push_decimal(s, bytes as u128);
        push_char(s, ' ');
        push_char(s, 'B');
    }
    assert(s@ =~= old(s)@ + byte_size_text(bytes as nat));
}

/// A byte count as text: megabytes or kilobytes with two decimals, or
/// plain bytes below one kilobyte ("500 B", "1.00 KB", "2.00 MB").
pub fn format_bytes(bytes: usize) -> (text: String)
    ensures
        text@ == byte_size_text(bytes as nat),
{
    let mut s = String::new();
    push_bytes(&mut s, bytes);
    s
}

} // verus!

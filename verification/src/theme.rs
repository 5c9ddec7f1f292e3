//! Reading "#rrggbb" color codes into channel values.

use vstd::prelude::*;
use vstd::string::StringSliceAdditionalSpecFns;

verus! {

/// Number of leading `'#'` bytes of `b`.
pub open spec fn leading_hashes(b: Seq<u8>) -> nat
    decreases b.len(),
{
    if b.len() > 0 && b[0] == 0x23 {
        1 + leading_hashes(b.skip(1))
    } else {
        0
    }
}

/// The bytes after the leading `'#'` characters (`trim_start_matches('#')`).
pub open spec fn without_hashes(b: Seq<u8>) -> Seq<u8> {
    b.skip(leading_hashes(b) as int)
}

/// Whether a `str` with bytes `t` may be cut before byte `i`: the end, or a
/// byte that does not continue a multi-byte character.
pub open spec fn cut_ok(t: Seq<u8>, i: int) -> bool {
    i == t.len() || (0 <= i < t.len() && !(0x80 <= t[i] <= 0xbf))
}

/// Whether the three two-byte fields of a color code can be sliced out:
/// at least six bytes after the `'#'`s, cut points at bytes 2, 4 and 6.
pub open spec fn hex_fields_present(hex_bytes: Seq<u8>) -> bool {
    let t = without_hashes(hex_bytes);
    t.len() >= 6 && cut_ok(t, 2) && cut_ok(t, 4) && cut_ok(t, 6)
}

/// Value of a hexadecimal digit byte, if it is one.
pub open spec fn hex_digit_value(c: u8) -> Option<u8> {
    if 0x30 <= c <= 0x39 {
        Some((c - 0x30) as u8)
    } else if 0x61 <= c <= 0x66 {
        Some((c - 0x61 + 10) as u8)
    } else if 0x41 <= c <= 0x46 {
        Some((c - 0x41 + 10) as u8)
    } else {
        None
    }
}

/// `u8::from_str_radix` in base 16 on the two bytes `c0 c1`, zero on error
/// (`unwrap_or(0)`): two hex digits, or `'+'` and one hex digit.
pub open spec fn hex_pair_value(c0: u8, c1: u8) -> u8 {
    if c0 == 0x2b {
        match hex_digit_value(c1) {
            Some(d) => d,
            None => 0,
        }
    } else {
        match (hex_digit_value(c0), hex_digit_value(c1)) {
            (Some(h), Some(l)) => (16 * h + l) as u8,
            _ => 0,
        }
    }
}

/// Red, green and blue channels of a color code.
pub open spec fn hex_channels(hex_bytes: Seq<u8>) -> (u8, u8, u8) {
    let t = without_hashes(hex_bytes);
    (hex_pair_value(t[0], t[1]), hex_pair_value(t[2], t[3]), hex_pair_value(t[4], t[5]))
}

fn hex_digit(c: u8) -> (d: Option<u8>)
    ensures
        d == hex_digit_value(c),
{
    if 0x30 <= c && c <= 0x39 {
        Some(c - 0x30)
    } else if 0x61 <= c && c <= 0x66 {
        Some(c - 0x61 + 10)
    } else if 0x41 <= c && c <= 0x46 {
        Some(c - 0x41 + 10)
    } else {
        None
    }
}

fn hex_pair(c0: u8, c1: u8) -> (v: u8)
    ensures
        v == hex_pair_value(c0, c1),
{
    if c0 == 0x2b {
        match hex_digit(c1) {
            Some(d) => d,
            None => 0,
        }
    } else {
        match (hex_digit(c0), hex_digit(c1)) {
            (Some(h), Some(l)) => 16 * h + l,
            _ => 0,
        }
    }
}

/// Number of leading `'#'` bytes, computed.
fn count_leading_hashes(b: &[u8]) -> (n: usize)
    ensures
        n == leading_hashes(b@),
        n <= b@.len(),
{
    let mut i: usize = 0;
    assert(b@.skip(0) =~= b@);
    while i < b.len() && b[i] == 0x23
        invariant
            i <= b@.len(),
            leading_hashes(b@) == i + leading_hashes(b@.skip(i as int)),
        decreases b@.len() - i,
    {
        assert(b@.skip(i as int).skip(1) =~= b@.skip(i + 1));
        i = i + 1;
    }
    i
}

/// Channels of a color code such as "#51cda0" or "51cda0": each pair of
/// characters after the leading `'#'`s read in base 16, a pair that is not
/// a number giving zero.
pub fn hex_rgb(hex: &str) -> (rgb: (u8, u8, u8))
    requires
        hex_fields_present(hex.spec_bytes()),
    ensures
        rgb == hex_channels(hex.spec_bytes()),
{
    let b = hex.as_bytes();
    let p = count_leading_hashes(b);
    let ghost t = without_hashes(b@);
    assert(forall|i: int| 0 <= i < t.len() ==> t[i] == b@[p + i]);
    let r = hex_pair(b[p], b[p + 1]);
    let g = hex_pair(b[p + 2], b[p + 3]);
    let bl = hex_pair(b[p + 4], b[p + 5]);
    (r, g, bl)
}

/// Whether [`hex_rgb`] can read `hex`: six bytes after the leading `'#'`s,
/// with the fields on character boundaries.
pub fn hex_fields_ok(hex: &str) -> (ok: bool)
    ensures
        ok == hex_fields_present(hex.spec_bytes()),
{
    let b = hex.as_bytes();
    let p = count_leading_hashes(b);
    let ghost t = without_hashes(b@);
    assert(t.len() == b@.len() - p);
    assert(forall|i: int| 0 <= i < t.len() ==> t[i] == b@[p + i]);
    if b.len() - p < 6 {
        return false;
    }
    let cut2 = !(0x80 <= b[p + 2] && b[p + 2] <= 0xbf);
    let cut4 = !(0x80 <= b[p + 4] && b[p + 4] <= 0xbf);
    let cut6 = b.len() - p == 6 || !(0x80 <= b[p + 6] && b[p + 6] <= 0xbf);
    cut2 && cut4 && cut6
}

// ==================== Laws ====================

/// The hexadecimal digit for `n < 16`: `'0'..='9'`, then `'A'..='F'` in
/// upper case or `'a'..='f'` in lower case.
pub open spec fn hex_digit_char(n: int, upper: bool) -> char {
    if upper {
        seq!['0', '1', '2', '3', '4', '5', '6', '7', '8', '9', 'A', 'B', 'C', 'D', 'E', 'F'][n]
    } else {
        seq!['0', '1', '2', '3', '4', '5', '6', '7', '8', '9', 'a', 'b', 'c', 'd', 'e', 'f'][n]
    }
}

/// Every hexadecimal digit, in either case, reads as the number it writes:
/// the byte of the digit for `n` has the value `n`.
pub proof fn lemma_hex_digits_read(n: int, upper: bool)
    requires
        0 <= n < 16,
    ensures
        hex_digit_value(hex_digit_char(n, upper) as u8) == Some(n as u8),
{
    let up = seq!['0', '1', '2', '3', '4', '5', '6', '7', '8', '9', 'A', 'B', 'C', 'D', 'E', 'F'];
    let low = seq!['0', '1', '2', '3', '4', '5', '6', '7', '8', '9', 'a', 'b', 'c', 'd', 'e', 'f'];
    assert(up[0] == '0' && up[1] == '1' && up[2] == '2' && up[3] == '3' && up[4] == '4');
    assert(up[5] == '5' && up[6] == '6' && up[7] == '7' && up[8] == '8' && up[9] == '9');
    assert(up[10] == 'A' && up[11] == 'B' && up[12] == 'C' && up[13] == 'D' && up[14] == 'E');
    assert(up[15] == 'F');
    assert(low[0] == '0' && low[1] == '1' && low[2] == '2' && low[3] == '3' && low[4] == '4');
    assert(low[5] == '5' && low[6] == '6' && low[7] == '7' && low[8] == '8' && low[9] == '9');
    assert(low[10] == 'a' && low[11] == 'b' && low[12] == 'c' && low[13] == 'd' && low[14] == 'e');
    assert(low[15] == 'f');
}

/// The two hexadecimal digits of `x`, high then low, as bytes.
pub open spec fn hex_pair_bytes(x: u8, upper: bool) -> Seq<u8> {
    seq![hex_digit_char((x / 16) as int, upper) as u8, hex_digit_char((x % 16) as int, upper) as u8]
}

/// The digits of `x` read back as `x`.
proof fn lemma_hex_pair_read(x: u8, upper: bool)
    ensures
        hex_pair_value(hex_pair_bytes(x, upper)[0], hex_pair_bytes(x, upper)[1]) == x,
        hex_digit_value(hex_pair_bytes(x, upper)[0]) is Some,
        hex_digit_value(hex_pair_bytes(x, upper)[1]) is Some,
{
    lemma_hex_digits_read((x / 16) as int, upper);
    lemma_hex_digits_read((x % 16) as int, upper);
    let c0 = hex_pair_bytes(x, upper)[0];
    assert(c0 != 0x2b);
}

/// A color code `#rrggbb` written with hexadecimal digits of either case
/// can be read, and reads back as the channels it was written from.
pub proof fn lemma_hex_code_read(r: u8, g: u8, b: u8, upper: bool)
    ensures
        ({
            let code = seq![0x23u8] + hex_pair_bytes(r, upper) + hex_pair_bytes(g, upper) + hex_pair_bytes(
                b,
                upper,
            );
            hex_fields_present(code) && hex_channels(code) == (r, g, b)
        }),
{
    let code = seq![0x23u8] + hex_pair_bytes(r, upper) + hex_pair_bytes(g, upper) + hex_pair_bytes(b, upper);
    let digits = hex_pair_bytes(r, upper) + hex_pair_bytes(g, upper) + hex_pair_bytes(b, upper);
    lemma_hex_pair_read(r, upper);
    lemma_hex_pair_read(g, upper);
    lemma_hex_pair_read(b, upper);
    assert(code.skip(1) =~= digits);
    assert(code.skip(1).skip(0) =~= digits);
    assert(digits[0] != 0x23);
    reveal_with_fuel(leading_hashes, 2);
    assert(leading_hashes(code.skip(1)) == 0);
    assert(leading_hashes(code) == 1);
    assert(without_hashes(code) =~= digits);
    assert(digits[2] == hex_pair_bytes(g, upper)[0]);
    assert(digits[4] == hex_pair_bytes(b, upper)[0]);
    assert(!(0x80 <= digits[2] <= 0xbf));
    assert(!(0x80 <= digits[4] <= 0xbf));
}

} // verus!

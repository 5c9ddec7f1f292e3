//! Axis and crosshair time labels: a millisecond timestamp rendered as a
//! UTC calendar date and time.

use chrono::{Datelike, Timelike};
use vstd::prelude::*;

use crate::text::{push_char, push_zero_padded, zero_padded};

verus! {

/// Calendar fields `(year, month, day, hour, minute)` of the UTC instant
/// `secs` seconds after the Unix epoch, as chrono computes them; `None`
/// when chrono cannot represent the instant.
pub uninterp spec fn utc_calendar(secs: i64) -> Option<(i32, u32, u32, u32, u32)>;

/// `chrono::DateTime::<Utc>::from_timestamp(secs, 0)` read back through
/// `year`, `month`, `day`, `hour` and `minute`. The date is left to chrono
/// (named by [`utc_calendar`]); the time of day and the field ranges are as
/// chrono's source and documentation state them.
#[verifier::external_body]
fn utc_fields(secs: i64) -> (fields: Option<(i32, u32, u32, u32, u32)>)
    ensures
        fields == utc_calendar(secs),
        fields matches Some((y, mo, d, h, mi)) ==> {
            &&& 1 <= mo <= 12
            &&& 1 <= d <= 31
            &&& h == (secs % 86400) / 3600
            &&& mi == (secs % 3600) / 60
        },
{
    match chrono::DateTime::<chrono::Utc>::from_timestamp(secs, 0) {
        Some(dt) => Some((dt.year(), dt.month(), dt.day(), dt.hour(), dt.minute())),
        None => None,
    }
}

/// Whole seconds of a millisecond timestamp, rounded toward zero (`ms / 1000`).
pub open spec fn seconds_of_millis(ms: i64) -> i64 {
    if ms >= 0 {
        (ms / 1000) as i64
    } else {
        (-((-ms) / 1000)) as i64
    }
}

/// Calendar fields used for a label: chrono's, or the Unix epoch
/// (chrono's default instant) when chrono has none.
pub open spec fn label_fields(ms: i64) -> (i32, u32, u32, u32, u32) {
    match utc_calendar(seconds_of_millis(ms)) {
        Some(f) => f,
        None => (1970, 1, 1, 0, 0),
    }
}

/// chrono's `%Y`: four digits with zeros for years 0..=9999, otherwise a
/// sign and at least four digits.
pub open spec fn year_text(y: int) -> Seq<char> {
    if 0 <= y <= 9999 {
        zero_padded(y as nat, 4)
    } else if y < 0 {
        seq!['-'] + zero_padded((-y) as nat, 4)
    } else {
        seq!['+'] + zero_padded(y as nat, 4)
    }
}

/// "MM/DD HH:MM" of the fields.
pub open spec fn short_label_text(f: (i32, u32, u32, u32, u32)) -> Seq<char> {
    zero_padded(f.1 as nat, 2) + seq!['/'] + zero_padded(f.2 as nat, 2) + seq![' ']
        + zero_padded(f.3 as nat, 2) + seq![':'] + zero_padded(f.4 as nat, 2)
}

/// "YYYY-MM-DD HH:MM" of the fields.
pub open spec fn long_label_text(f: (i32, u32, u32, u32, u32)) -> Seq<char> {
    year_text(f.0 as int) + seq!['-'] + zero_padded(f.1 as nat, 2) + seq!['-'] + zero_padded(
        f.2 as nat,
        2,
    ) + seq![' '] + zero_padded(f.3 as nat, 2) + seq![':'] + zero_padded(f.4 as nat, 2)
}

/// Calendar fields of a millisecond timestamp, epoch when unrepresentable.
fn fields_of_millis(timestamp_ms: i64) -> (fields: (i32, u32, u32, u32, u32))
    ensures
        fields == label_fields(timestamp_ms),
{
    let secs = timestamp_ms / 1000;
    assert(secs == seconds_of_millis(timestamp_ms));
    match utc_fields(secs) {
        Some(f) => f,
        None => (1970, 1, 1, 0, 0),
    }
}

/// Appends "HH:MM" of the fields after a space.
fn push_clock(s: &mut String, f: (i32, u32, u32, u32, u32))
    ensures
        final(s)@ == old(s)@ + seq![' '] + zero_padded(f.3 as nat, 2) + seq![':'] + zero_padded(
            f.4 as nat,
            2,
        ),
{
    push_char(s, ' ');
    push_zero_padded(s, f.3 as u128, 2);
    push_char(s, ':');
    push_zero_padded(s, f.4 as u128, 2);
    assert(s@ =~= old(s)@ + seq![' '] + zero_padded(f.3 as nat, 2) + seq![':'] + zero_padded(
        f.4 as nat,
        2,
    ));
}

/// Axis label of a millisecond timestamp: "MM/DD HH:MM" in UTC.
pub fn format_time_label_short(timestamp_ms: i64) -> (label: String)
    ensures
        label@ == short_label_text(label_fields(timestamp_ms)),
{
    let f = fields_of_millis(timestamp_ms);
    let mut s = String::new();
    push_zero_padded(&mut s, f.1 as u128, 2);
    push_char(&mut s, '/');
    push_zero_padded(&mut s, f.2 as u128, 2);
    push_clock(&mut s, f);
    assert(s@ =~= short_label_text(f));
    s
}

/// Crosshair label of a millisecond timestamp: "YYYY-MM-DD HH:MM" in UTC.
pub fn format_time_label_long(timestamp_ms: i64) -> (label: String)
    ensures
        label@ == long_label_text(label_fields(timestamp_ms)),
{
    let f = fields_of_millis(timestamp_ms);
    let mut s = String::new();
    let y = f.0;
    if 0 <= y && y <= 9999 {
        push_zero_padded(&mut s, y as u128, 4);
    } else if y < 0 {
        push_char(&mut s, '-');
        let magnitude: u128 = (-(y as i64)) as u128;
        push_zero_padded(&mut s, magnitude, 4);
    } else {
        push_char(&mut s, '+');
        push_zero_padded(&mut s, y as u128, 4);
    }
    assert(s@ =~= year_text(y as int));
    push_char(&mut s, '-');
    push_zero_padded(&mut s, f.1 as u128, 2);
    push_char(&mut s, '-');
    push_zero_padded(&mut s, f.2 as u128, 2);
    push_clock(&mut s, f);
    assert(s@ =~= long_label_text(f));
    s
}

} // verus!

//! Capture times: milliseconds since the Unix epoch (UTC), and their text.

use vstd::prelude::*;
use chrono::{DateTime, Utc};
use crate::utility::{decimal, push_decimal};

verus! {

/// The text that chrono gives a UTC instant `ms` milliseconds after the
/// Unix epoch, such as `2022-08-11 21:33:46.756 UTC`.
pub uninterp spec fn utc_text(ms: int) -> Seq<char>;

/// Capture times within this many milliseconds of the epoch, either way
/// (about 253,000 years), lie well inside the dates chrono holds (years
/// -262143 to 262142).
pub const UTC_TEXT_RANGE_MS: i64 = 8_000_000_000_000_000;

/// Whether chrono can write the capture time `ms` as a date.
pub open spec fn in_utc_range(ms: int) -> bool {
    -UTC_TEXT_RANGE_MS <= ms <= UTC_TEXT_RANGE_MS
}

/// Relies on chrono's `DateTime::<Utc>::from_timestamp_millis`, which gives
/// the instant `millis` milliseconds after the epoch, or `None` only outside
/// the range of dates it holds, and on the `Display` of `DateTime<Utc>`,
/// which writes that instant.
#[verifier::external_body]
fn utc_to_string(millis: i64) -> (r: Option<String>)
    ensures
        in_utc_range(millis as int) ==> r is Some,
        r matches Some(s) ==> s@ == utc_text(millis as int),
{
    match DateTime::<Utc>::from_timestamp_millis(millis) {
        Some(t) => Some(t.to_string()),
        None => None,
    }
}

/// `v` in decimal, with a minus sign when it is negative.
pub open spec fn signed_decimal(v: int) -> Seq<char> {
    if v < 0 {
        seq!['-'] + decimal((-v) as nat)
    } else {
        decimal(v as nat)
    }
}

/// Appends `v` in decimal, with a minus sign when it is negative.
pub fn push_signed_decimal(s: &mut String, v: i64)
    ensures
        final(s)@ == old(s)@ + signed_decimal(v as int),
{
    if v < 0 {
        s.push('-');
        let magnitude: u64 = (-(v as i128)) as u64;
        push_decimal(s, magnitude);
        proof {
            assert(s@ =~= old(s)@ + signed_decimal(v as int));
        }
    } else {
        push_decimal(s, v as u64);
    }
}

/// Whether `t` is the text of capture time `ms`: chrono's date within
/// `UTC_TEXT_RANGE_MS`; beyond it, chrono's date where chrono still holds
/// the instant, or else the number of milliseconds.
pub open spec fn is_stamp_text(t: Seq<char>, ms: int) -> bool {
    if in_utc_range(ms) {
        t == utc_text(ms)
    } else {
        t == utc_text(ms) || t == signed_decimal(ms)
    }
}

/// The text of a capture time: the UTC date and time when chrono can
/// represent the instant, else the number of milliseconds.
pub fn timestamp_text(millis: i64) -> (r: String)
    ensures
        is_stamp_text(r@, millis as int),
{
    match utc_to_string(millis) {
        Some(s) => s,
        None => {
            let mut s = String::new();
            push_signed_decimal(&mut s, millis);
            s
        },
    }
}

} // verus!

//! The current local date and time, and the date labels built from it.
//!
//! The clock itself is an outside call; everything built from its result is
//! verified for every value the clock can return.

use vstd::prelude::*;
use chrono::Datelike;
use chrono::Timelike;
use crate::num::{spec_pad2, spec_pad4, pad2_u128, pad4_u128, spec_int_digits, int_digits_i128,
    append_chars};

verus! {

/// Relies on chrono's `Local::now` read through the `Datelike` and
/// `Timelike` accessors: month runs from 1 to 12, day from 1 to 31, hour
/// from 0 to 23, minute and second from 0 to 59.  The year depends on the
/// wall clock, so nothing more is promised of it.
#[verifier::external_body]
pub fn now_parts() -> (r: (i64, u64, u64, u64, u64, u64))
    ensures
        1 <= r.1 <= 12,
        1 <= r.2 <= 31,
        r.3 <= 23,
        r.4 <= 59,
        r.5 <= 59,
        -2_147_483_648 <= r.0 <= 2_147_483_647,
{
    let n = chrono::Local::now();
    (
        n.year() as i64,
        n.month() as u64,
        n.day() as u64,
        n.hour() as u64,
        n.minute() as u64,
        n.second() as u64,
    )
}

/// A year rendered to at least four digits, zero-padded, with a leading
/// minus for years before the common era.
pub open spec fn spec_year4(y: int) -> Seq<char> {
    if y < 0 {
        seq!['-'] + spec_pad4(-y)
    } else {
        spec_pad4(y)
    }
}

/// Renders a year to at least four digits.
pub fn year4(y: i64) -> (r: Vec<char>)
    requires
        -2_147_483_648 <= y <= 2_147_483_647,
    ensures
        r@ == spec_year4(y as int),
{
    if y < 0 {
        let mut out: Vec<char> = Vec::new();
        out.push('-');
        let ds = pad4_u128((-y) as u128);
        append_chars(&mut out, &ds);
        proof {
            assert(out@ =~= seq!['-'] + spec_pad4(-(y as int)));
        }
        out
    } else {
        pad4_u128(y as u128)
    }
}

/// The month label on a record: a four-digit year, a two-digit month, and
/// the year and month unit characters.
pub open spec fn spec_month_label(y: int, m: int) -> Seq<char> {
    spec_year4(y) + seq!['年'] + spec_pad2(m) + seq!['月']
}

/// Renders the month label: zero-padded year and month with unit characters.
pub fn month_label(y: i64, m: u64) -> (r: Vec<char>)
    requires
        -2_147_483_648 <= y <= 2_147_483_647,
        m <= 99,
    ensures
        r@ == spec_month_label(y as int, m as int),
{
    let mut out = year4(y);
    out.push('年');
    let mm = pad2_u128(m as u128);
    append_chars(&mut out, &mm);
    out.push('月');
    proof {
        assert(out@ =~= spec_month_label(y as int, m as int));
    }
    out
}

/// A full date label: unpadded year, two-digit month and day, with the
/// year, month and day unit characters.
pub open spec fn spec_date_label(y: int, m: int, d: int) -> Seq<char> {
    spec_int_digits(y) + seq!['年'] + spec_pad2(m) + seq!['月'] + spec_pad2(d) + seq!['日']
}

/// Renders a full date label.
pub fn date_label(y: i64, m: u64, d: u64) -> (r: Vec<char>)
    requires
        -2_147_483_648 <= y <= 2_147_483_647,
        m <= 99,
        d <= 99,
    ensures
        r@ == spec_date_label(y as int, m as int, d as int),
{
    let mut out = int_digits_i128(y as i128);
    out.push('年');
    let mm = pad2_u128(m as u128);
    append_chars(&mut out, &mm);
    out.push('月');
    let dd = pad2_u128(d as u128);
    append_chars(&mut out, &dd);
    out.push('日');
    proof {
        assert(out@ =~= spec_date_label(y as int, m as int, d as int));
    }
    out
}

/// A timestamp: date and time of day separated by a space, every part
/// zero-padded, in year-month-day hour:minute:second order.
pub open spec fn spec_timestamp_label(y: int, m: int, d: int, h: int, mi: int, s: int) -> Seq<
    char,
> {
    spec_year4(y) + seq!['-'] + spec_pad2(m) + seq!['-'] + spec_pad2(d) + seq![' '] + spec_pad2(h)
        + seq![':'] + spec_pad2(mi) + seq![':'] + spec_pad2(s)
}

/// Renders a timestamp label.
pub fn timestamp_label(y: i64, m: u64, d: u64, h: u64, mi: u64, s: u64) -> (r: Vec<char>)
    requires
        -2_147_483_648 <= y <= 2_147_483_647,
        m <= 99,
        d <= 99,
        h <= 99,
        mi <= 99,
        s <= 99,
    ensures
        r@ == spec_timestamp_label(y as int, m as int, d as int, h as int, mi as int, s as int),
{
    let mut out = year4(y);
    out.push('-');
    let mm = pad2_u128(m as u128);
    append_chars(&mut out, &mm);
    out.push('-');
    let dd = pad2_u128(d as u128);
    append_chars(&mut out, &dd);
    out.push(' ');
    let hh = pad2_u128(h as u128);
    append_chars(&mut out, &hh);
    out.push(':');
    let mimi = pad2_u128(mi as u128);
    append_chars(&mut out, &mimi);
    out.push(':');
    let ss = pad2_u128(s as u128);
    append_chars(&mut out, &ss);
    proof {
        assert(out@ =~= spec_timestamp_label(
            y as int,
            m as int,
            d as int,
            h as int,
            mi as int,
            s as int,
        ));
    }
    out
}

} // verus!

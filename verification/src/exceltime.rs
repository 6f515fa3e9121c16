//! The host's serial-day time representation and its conversion to a bus
//! instant.
//!
//! The host counts days from the civil date just before day 1, which is
//! 1899-12-31, and wrongly treats February 1900 as having 29 days; every
//! serial value above 59 is therefore shifted down by one whole day before
//! the calendar arithmetic. Negative serials are rejected. The civil date
//! and the zone resolution come from the calendar library behind trusted
//! wrappers; everything around them is verified.
use crate::bus::BusValue;
use crate::ieee;
use chrono::Datelike;
use chrono::TimeZone;
use vstd::prelude::*;

verus! {

/// The last serial day this bridge hands to the calendar: far beyond any
/// date a spreadsheet can show, but safely inside the calendar library's
/// range, so the trusted arithmetic below never overflows.
pub const MAX_SERIAL_DAYS: i64 = 95_000_000;

/// A day's worth of milliseconds.
pub const DAY_MS: i64 = 86_400_000;

/// The civil date `days` days after 1899-12-31, as (year, month, day).
pub uninterp spec fn civil_of_excel_day(days: int) -> (int, int, int);

/// Relies on `chrono::NaiveDate::checked_add_signed` (with
/// `from_ymd_opt` and `TimeDelta::try_days`): the civil date a day count
/// past 1899-12-31 names. The result is a function of the day count alone;
/// months and days of month lie in their civil ranges.
#[verifier::external_body]
fn epoch_plus_days(days: i64) -> (r: (i32, u32, u32))
    requires
        0 <= days <= MAX_SERIAL_DAYS,
    ensures
        (r.0 as int, r.1 as int, r.2 as int) == civil_of_excel_day(days as int),
        1 <= r.1 <= 12,
        1 <= r.2 <= 31,
{
    let date = chrono::NaiveDate::from_ymd_opt(1899, 12, 31)
        .zip(chrono::TimeDelta::try_days(days))
        .and_then(|(epoch, delta)| epoch.checked_add_signed(delta));
    match date {
        Some(d) => (d.year(), d.month(), d.day()),
        None => (0, 1, 1),
    }
}

/// How the machine's time zone resolved a civil datetime.
#[derive(Debug, Clone, Copy, PartialEq, Eq, Structural)]
pub enum LocalResolve {
    /// One instant matches; carries UTC milliseconds since the Unix epoch.
    Single(i64),
    /// The civil time happens twice (a fold).
    Ambiguous,
    /// The civil time never happens (a gap), or lies outside the calendar.
    NotFound,
}

/// Relies on `chrono::Local::from_local_datetime` and
/// `DateTime::timestamp_millis`: resolving a civil datetime in the
/// machine's time zone and converting to UTC. The outcome depends on that
/// zone, so nothing is promised beyond the answer's shape.
#[verifier::external_body]
fn local_civil_to_utc(y: i32, mo: u32, d: u32, ms: i64) -> (r: LocalResolve)
    requires
        0 <= ms <= DAY_MS,
{
    let naive = chrono::NaiveDate::from_ymd_opt(y, mo, d)
        .and_then(|date| date.and_hms_opt(0, 0, 0))
        .zip(chrono::TimeDelta::try_milliseconds(ms))
        .and_then(|(base, delta)| base.checked_add_signed(delta));
    match naive.map(|n| chrono::Local.from_local_datetime(&n)) {
        Some(chrono::LocalResult::Single(t)) => LocalResolve::Single(
            t.with_timezone(&chrono::Utc).timestamp_millis(),
        ),
        Some(chrono::LocalResult::Ambiguous(_, _)) => LocalResolve::Ambiguous,
        _ => LocalResolve::NotFound,
    }
}

/// The serial day count after the fictitious-leap-day shift: the integer
/// part of the serial, less one for serials above 59.
pub open spec fn spec_adjusted_days(bits: u64) -> int {
    if ieee::spec_above_nonneg(bits, ieee::SERIAL_59_BITS) {
        ieee::spec_trunc_i64(bits) as int - 1
    } else {
        ieee::spec_trunc_i64(bits) as int
    }
}

/// Whether a serial value is accepted at all: not below zero, and its
/// shifted day count within the calendar range handed to the library.
pub open spec fn spec_serial_in_range(bits: u64) -> bool {
    &&& !ieee::spec_below_zero(bits)
    &&& 0 <= spec_adjusted_days(bits) <= MAX_SERIAL_DAYS as int
}

/// The civil date a serial value names, after the leap-day shift; nothing
/// for negative or out-of-range serials.
pub fn serial_civil_date(bits: u64) -> (r: Option<(i32, u32, u32)>)
    ensures
        !spec_serial_in_range(bits) ==> r is None,
        spec_serial_in_range(bits) ==> (r matches Some(c) && (c.0 as int, c.1 as int, c.2 as int)
            == civil_of_excel_day(spec_adjusted_days(bits)) && 1 <= c.1 <= 12 && 1 <= c.2 <= 31),
{
    if ieee::is_below_zero(bits) {
        return None;
    }
    let days: i64 = ieee::trunc_i64(bits);
    let adj: i64 = if ieee::is_above_nonneg(bits, ieee::SERIAL_59_BITS) {
        proof {
            ieee::lemma_trunc_nonneg(bits);
        }
        days - 1
    } else {
        days
    };
    if adj < 0 || adj > MAX_SERIAL_DAYS {
        return None;
    }
    Some(epoch_plus_days(adj))
}

/// The bus value each zone resolution yields: the instant itself, the
/// ambiguity marker, or the host's value error for a non-existent time.
pub fn bus_of_resolve(lr: LocalResolve) -> (r: BusValue)
    ensures
        lr matches LocalResolve::Single(ms) ==> r == BusValue::DateTime(ms),
        lr is Ambiguous ==> (r matches BusValue::Error(s) && s@ == "#AMBIGUOUS_TIME"@),
        lr is NotFound ==> (r matches BusValue::Error(s) && s@ == "#VALUE!"@),
{
    match lr {
        LocalResolve::Single(ms) => BusValue::DateTime(ms),
        LocalResolve::Ambiguous => BusValue::Error(String::from_str("#AMBIGUOUS_TIME")),
        LocalResolve::NotFound => BusValue::Error(String::from_str("#VALUE!")),
    }
}

/// Turns a serial value (as bits) and its fractional part (as milliseconds
/// into the day, computed by the caller's floating-point rim) into a bus
/// instant: rejects negative and out-of-range serials with the host's value
/// error, and otherwise resolves the shifted civil datetime in the
/// machine's zone, which may itself report an ambiguity or a gap.
pub fn serial_to_datetime(bits: u64, frac_ms: i64) -> (r: BusValue)
    ensures
        !spec_serial_in_range(bits) || !(0 <= frac_ms <= DAY_MS) ==> (r matches BusValue::Error(s)
            && s@ == "#VALUE!"@),
        spec_serial_in_range(bits) && 0 <= frac_ms <= DAY_MS ==> (r is DateTime || (
        r matches BusValue::Error(s) && (s@ == "#AMBIGUOUS_TIME"@ || s@ == "#VALUE!"@))),
{
    if frac_ms < 0 || frac_ms > DAY_MS {
        return BusValue::Error(String::from_str("#VALUE!"));
    }
    match serial_civil_date(bits) {
        None => BusValue::Error(String::from_str("#VALUE!")),
        Some((y, mo, d)) => bus_of_resolve(local_civil_to_utc(y, mo, d, frac_ms)),
    }
}

} // verus!

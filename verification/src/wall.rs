use vstd::prelude::*;

use crate::timefmt::{clock_text, format_clock};

verus! {

/// Relies on chrono's `Local::now` and `DateTime::timestamp_millis`: the
/// wall clock now, as milliseconds since the Unix epoch (negative before
/// 1970). Nothing can be promised of a clock reading.
#[verifier::external_body]
fn now_epoch_millis_raw() -> i64 {
    chrono::Local::now().timestamp_millis()
}

/// The wall clock now as a non-negative epoch-millisecond stamp; a reading
/// from before 1970 is clamped to zero.
pub fn now_wall_millis() -> (w: u64) {
    let t: i64 = now_epoch_millis_raw();
    if t < 0 {
        0
    } else {
        t as u64
    }
}

/// Relies on chrono's `DateTime::from_timestamp_millis` (documented to
/// return `Some` exactly for stamps within its representable year range),
/// `DateTime::with_timezone`, and the `Datelike`/`Timelike` accessors with
/// their documented ranges: month 1..=12, day 1..=31, hour 0..=23,
/// minute 0..=59. The fields depend on the machine's local time zone, so
/// beyond those ranges nothing is stated of them.
#[verifier::external_body]
fn local_clock_fields(epoch_ms: u64) -> (r: Option<(i32, u32, u32, u32, u32)>)
    ensures
        r matches Some(f) ==> 1 <= f.1 <= 12 && 1 <= f.2 <= 31 && f.3 < 24 && f.4 < 60,
        epoch_ms < 4000000000000000 ==> r is Some,
{
    match chrono::DateTime::from_timestamp_millis(epoch_ms as i64) {
        Some(utc) => {
            let dt = utc.with_timezone(&chrono::Local);
            Some((
                chrono::Datelike::year(&dt),
                chrono::Datelike::month(&dt),
                chrono::Datelike::day(&dt),
                chrono::Timelike::hour(&dt),
                chrono::Timelike::minute(&dt),
            ))
        },
        None => None,
    }
}

/// The `YYYY-MM-DD HH:MM` text of a wall stamp, in the machine's local time
/// zone. Whatever calendar fields the clock library reports, the text is
/// exactly their zero-padded rendering; a year before 1 CE, or a stamp past
/// the library's range, renders with a clamped year.
pub fn clock_stamp_text(epoch_ms: u64) -> (r: String)
    ensures
        exists|y: nat, mo: nat, d: nat, h: nat, mi: nat|
            1 <= mo <= 12 && 1 <= d <= 31 && h < 24 && mi < 60 && r@ == clock_text(y, mo, d, h, mi),
{
    match local_clock_fields(epoch_ms) {
        Some(f) => {
            let (y, mo, d, h, mi) = f;
            let year: u64 = if y < 0 {
                0
            } else {
                y as u64
            };
            let r = format_clock(year, mo as u64, d as u64, h as u64, mi as u64);
            assert(r@ == clock_text(year as nat, mo as nat, d as nat, h as nat, mi as nat));
            r
        },
        None => {
            let r = format_clock(0, 1, 1, 0, 0);
            assert(r@ == clock_text(0, 1, 1, 0, 0));
            r
        },
    }
}

} // verus!

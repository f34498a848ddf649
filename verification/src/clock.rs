//! Reading the local wall clock.  The reading itself comes from an outside
//! crate through one trusted item; everything done with it is verified.

use vstd::prelude::*;
use crate::time::Timestamp;

verus! {

/// One raw reading of the local clock, as plain values.
#[derive(Clone, Copy, PartialEq, Eq, Structural, Debug)]
pub struct ClockReading {
    pub year: i32,
    pub month: u32,
    pub day: u32,
    pub hour: u32,
    pub minute: u32,
    pub second: u32,
    pub epoch: i64,
}

/// Relies on chrono's `Local::now` for the current local time, on its
/// `Datelike` and `Timelike` accessors (documented to return the month in
/// `1 ..= 12`, the day in `1 ..= 31`, the hour in `0 ..= 23`, and the
/// minute and second in `0 ..= 59`), and on `DateTime::timestamp` for the
/// seconds since the Unix epoch.  The reading depends on the wall clock,
/// so nothing beyond those documented ranges is claimed of it.
#[verifier::external_body]
fn read_local_clock() -> (r: ClockReading)
    ensures
        1 <= r.month <= 12,
        1 <= r.day <= 31,
        r.hour <= 23,
        r.minute <= 59,
        r.second <= 59,
{
    let now = chrono::Local::now();
    ClockReading {
        year: chrono::Datelike::year(&now),
        month: chrono::Datelike::month(&now),
        day: chrono::Datelike::day(&now),
        hour: chrono::Timelike::hour(&now),
        minute: chrono::Timelike::minute(&now),
        second: chrono::Timelike::second(&now),
        epoch: now.timestamp(),
    }
}

/// The current local time as a well-formed timestamp, or `None` for the
/// rare clock reading the library's calendar model does not cover (a year
/// outside `0 ..= 9999`, or an epoch value outside its bound).  Whatever
/// the clock returns, every `Some` result is well-formed.
pub fn current_timestamp() -> (r: Option<Timestamp>)
    ensures
        match r {
            Some(t) => t.wf(),
            None => true,
        },
{
    let c = read_local_clock();
    Timestamp::from_parts(c.year, c.month, c.day, c.hour, c.minute, c.second, c.epoch)
}

} // verus!

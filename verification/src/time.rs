//! Calendar timestamps and the hourly rotation rule.
//!
//! A `Timestamp` carries a local calendar reading (year through second) next
//! to its epoch-seconds value.  Rotation decisions compare two timestamps:
//! the hour-aligned moment of the last rotation and the current reading.

use vstd::prelude::*;

verus! {

/// Bound on the magnitude of epoch-seconds values the library accepts.
/// Comfortably covers every date a calendar field set can describe, while
/// keeping all differences of two accepted values inside `i64`.
pub const EPOCH_BOUND: i64 = 10_000_000_000_000;

/// One reading of a local clock: calendar fields plus seconds since the epoch.
#[derive(Clone, Copy, PartialEq, Eq, Structural, Debug)]
pub struct Timestamp {
    pub year: i32,
    pub month: u32,
    pub day: u32,
    pub hour: u32,
    pub minute: u32,
    pub second: u32,
    /// Seconds since the Unix epoch at this instant.
    pub epoch: i64,
}

impl Timestamp {
    /// Well-formedness: calendar fields in range, a four-digit year, and an
    /// epoch value far enough from the `i64` limits that aligning (which
    /// subtracts at most 3599 seconds) and differencing stay exact.
    pub open spec fn wf(self) -> bool {
        &&& 0 <= self.year <= 9999
        &&& 1 <= self.month <= 12
        &&& 1 <= self.day <= 31
        &&& self.hour <= 23
        &&& self.minute <= 59
        &&& self.second <= 59
        &&& -(EPOCH_BOUND as int) <= self.epoch - 60 * (self.minute as int) - (
        self.second as int)
        &&& self.epoch <= EPOCH_BOUND
    }

    /// An hour-aligned timestamp: minutes and seconds forced to zero.
    pub open spec fn aligned(self) -> bool {
        self.minute == 0 && self.second == 0
    }

    /// The hour-aligned version of this timestamp.
    pub open spec fn align_spec(self) -> Timestamp {
        Timestamp {
            minute: 0,
            second: 0,
            epoch: (self.epoch - 60 * (self.minute as int) - (self.second as int)) as i64,
            ..self
        }
    }

    /// Force minutes and seconds to zero, moving the epoch value back to the
    /// start of the hour.
    pub fn align(self) -> (r: Timestamp)
        requires
            self.wf(),
        ensures
            r == self.align_spec(),
            r.wf(),
            r.aligned(),
    {
        Timestamp {
            minute: 0,
            second: 0,
            epoch: self.epoch - 60 * (self.minute as i64) - (self.second as i64),
            ..self
        }
    }

    /// Build a timestamp from plain clock parts, accepting exactly the
    /// well-formed ones and rejecting every other reading.
    pub fn from_parts(
        year: i32,
        month: u32,
        day: u32,
        hour: u32,
        minute: u32,
        second: u32,
        epoch: i64,
    ) -> (r: Option<Timestamp>)
        ensures
            ({
                let t = (Timestamp { year, month, day, hour, minute, second, epoch });
                if t.wf() {
                    r == Some(t)
                } else {
                    r == None::<Timestamp>
                }
            }),
    {
        if 0 <= year && year <= 9999 && 1 <= month && month <= 12 && 1 <= day && day <= 31 && hour
            <= 23 && minute <= 59 && second <= 59 && -EPOCH_BOUND + 60 * (minute as i64) + (
        second as i64) <= epoch && epoch <= EPOCH_BOUND {
            Some(Timestamp { year, month, day, hour, minute, second, epoch })
        } else {
            None
        }
    }
}

/// The calendar date of `a` is strictly later than the calendar date of `b`.
pub open spec fn date_after(a: Timestamp, b: Timestamp) -> bool {
    ||| a.year > b.year
    ||| (a.year == b.year && a.month > b.month)
    ||| (a.year == b.year && a.month == b.month && a.day > b.day)
}

/// Rotation is due when the calendar date advanced together with a strictly
/// larger hour-of-day, or when strictly more than one hour of wall-clock
/// time elapsed since the last rotation.
pub open spec fn rotation_due_spec(last: Timestamp, now: Timestamp) -> bool {
    ||| (date_after(now, last) && now.hour > last.hour)
    ||| now.epoch - last.epoch > 3600
}

/// Day count of a calendar date, measured from the Unix epoch date, by the
/// standard civil-calendar formula (Gregorian, with the usual leap rule).
pub open spec fn day_number(y: int, m: int, d: int) -> int {
    let yy = if m <= 2 {
        y - 1
    } else {
        y
    };
    let era = yy / 400;
    let yoe = yy - era * 400;
    let mp = if m > 2 {
        m - 3
    } else {
        m + 9
    };
    let doy = (153 * mp + 2) / 5 + d - 1;
    let doe = yoe * 365 + yoe / 4 - yoe / 100 + doy;
    era * 146097 + doe - 719468
}

/// Seconds-of-local-calendar of a timestamp's fields: the day number scaled
/// to seconds plus the time of day.
pub open spec fn civil_secs(t: Timestamp) -> int {
    day_number(t.year as int, t.month as int, t.day as int) * 86400 + (t.hour as int) * 3600 + (
    t.minute as int) * 60 + (t.second as int)
}

/// A timestamp is a faithful clock reading when its epoch value agrees with
/// its calendar fields up to a fixed local-time offset `off`.
pub open spec fn clock_consistent(t: Timestamp, off: int) -> bool {
    t.epoch == civil_secs(t) + off
}

/// The six calendar fields of two timestamps agree (their epoch values may
/// still differ).
pub open spec fn same_stamp(a: Timestamp, b: Timestamp) -> bool {
    &&& a.year == b.year
    &&& a.month == b.month
    &&& a.day == b.day
    &&& a.hour == b.hour
    &&& a.minute == b.minute
    &&& a.second == b.second
}

/// Aligning keeps a timestamp consistent with the same offset: only the
/// time-of-day terms of `civil_secs` change, by the amount subtracted from
/// the epoch value.
pub proof fn lemma_align_consistent(t: Timestamp, off: int)
    requires
        t.wf(),
        clock_consistent(t, off),
    ensures
        clock_consistent(t.align_spec(), off),
{
}

/// Immediately after a rotation at `now`, no further rotation is due at
/// `now`: the check is idempotent and at most one rotation happens per
/// boundary crossed.
pub proof fn lemma_rotation_idempotent(now: Timestamp)
    requires
        now.wf(),
    ensures
        !rotation_due_spec(now.align_spec(), now),
{
}

/// Within one aligned hour no rotation is due: a write whose reading shares
/// the calendar hour of the last (aligned) rotation, under a consistent
/// clock, never triggers a second rotation.
pub proof fn lemma_no_rotation_within_hour(last: Timestamp, now: Timestamp, off: int)
    requires
        last.wf(),
        now.wf(),
        last.aligned(),
        clock_consistent(last, off),
        clock_consistent(now, off),
        now.year == last.year,
        now.month == last.month,
        now.day == last.day,
        now.hour == last.hour,
    ensures
        !rotation_due_spec(last, now),
{
    assert(civil_secs(now) - civil_secs(last) == (now.minute as int) * 60 + (now.second as int));
}

/// When rotation is due under a consistent clock, the newly aligned
/// timestamp differs from the previous one in its calendar fields, so the
/// rotation really moves to a different hour.
pub proof fn lemma_rotation_advances(last: Timestamp, now: Timestamp, off: int)
    requires
        last.wf(),
        now.wf(),
        last.aligned(),
        clock_consistent(last, off),
        clock_consistent(now, off),
        rotation_due_spec(last, now),
    ensures
        !same_stamp(now.align_spec(), last),
{
    let a = now.align_spec();
    lemma_align_consistent(now, off);
    if same_stamp(a, last) {
        assert(civil_secs(a) == civil_secs(last));
        assert(a.epoch == last.epoch);
        assert(now.epoch - last.epoch == 60 * (now.minute as int) + (now.second as int));
        assert(!(now.epoch - last.epoch > 3600));
        assert(!date_after(now, last));
        assert(false);
    }
}

/// Decide whether a file whose last rotation happened at `last` must rotate
/// at the current reading `now`.
pub fn rotation_due(last: Timestamp, now: Timestamp) -> (r: bool)
    requires
        last.wf(),
        now.wf(),
    ensures
        r == rotation_due_spec(last, now),
{
    let date_is_after = now.year > last.year || (now.year == last.year && now.month > last.month)
        || (now.year == last.year && now.month == last.month && now.day > last.day);
    let hour_is_after = now.hour > last.hour;
    if date_is_after && hour_is_after {
        return true;
    }
    if now.epoch - last.epoch > 3600 {
        return true;
    }
    false
}

} // verus!

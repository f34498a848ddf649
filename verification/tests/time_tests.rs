use log_revolve::time::Timestamp;
use log_revolve::time::{rotation_due, EPOCH_BOUND};

fn ts(year: i32, month: u32, day: u32, hour: u32, minute: u32, second: u32, epoch: i64) -> Timestamp {
    Timestamp { year, month, day, hour, minute, second, epoch }
}

#[test]
fn from_parts_accepts_a_plain_reading() {
    let r = Timestamp::from_parts(2024, 1, 2, 3, 4, 5, 1_704_164_645);
    assert_eq!(r, Some(ts(2024, 1, 2, 3, 4, 5, 1_704_164_645)));
}

#[test]
fn from_parts_rejects_bad_calendar_fields() {
    assert_eq!(Timestamp::from_parts(2024, 0, 2, 3, 4, 5, 0), None);
    assert_eq!(Timestamp::from_parts(2024, 13, 2, 3, 4, 5, 0), None);
    assert_eq!(Timestamp::from_parts(2024, 1, 0, 3, 4, 5, 0), None);
    assert_eq!(Timestamp::from_parts(2024, 1, 32, 3, 4, 5, 0), None);
    assert_eq!(Timestamp::from_parts(2024, 1, 2, 24, 4, 5, 0), None);
    assert_eq!(Timestamp::from_parts(2024, 1, 2, 3, 60, 5, 0), None);
    assert_eq!(Timestamp::from_parts(2024, 1, 2, 3, 4, 60, 0), None);
    assert_eq!(Timestamp::from_parts(-1, 1, 2, 3, 4, 5, 0), None);
    assert_eq!(Timestamp::from_parts(10000, 1, 2, 3, 4, 5, 0), None);
}

#[test]
fn from_parts_rejects_epoch_out_of_bound() {
    assert_eq!(Timestamp::from_parts(2024, 1, 2, 3, 4, 5, EPOCH_BOUND + 1), None);
    assert_eq!(Timestamp::from_parts(2024, 1, 2, 3, 4, 5, -EPOCH_BOUND), None);
    assert!(Timestamp::from_parts(2024, 1, 2, 3, 4, 5, EPOCH_BOUND).is_some());
}

#[test]
fn align_zeroes_minutes_and_seconds() {
    let t = ts(2024, 6, 15, 10, 42, 17, 1_718_448_137);
    let a = t.align();
    assert_eq!(a, ts(2024, 6, 15, 10, 0, 0, 1_718_448_137 - 42 * 60 - 17));
}

#[test]
fn align_is_idempotent_on_aligned_readings() {
    let t = ts(2024, 6, 15, 10, 0, 0, 1_718_445_600);
    assert_eq!(t.align(), t);
}

#[test]
fn rotation_not_due_within_the_hour() {
    let last = ts(2024, 6, 15, 10, 0, 0, 1_718_445_600);
    let now = ts(2024, 6, 15, 10, 59, 59, 1_718_445_600 + 3599);
    assert!(!rotation_due(last, now));
    // The check is idempotent: asking twice with no elapsed time agrees.
    assert!(!rotation_due(last, now));
}

#[test]
fn rotation_not_due_at_exactly_one_hour() {
    let last = ts(2024, 6, 15, 10, 0, 0, 1_718_445_600);
    let now = ts(2024, 6, 15, 11, 0, 0, 1_718_445_600 + 3600);
    assert!(!rotation_due(last, now));
}

#[test]
fn rotation_due_past_one_hour() {
    let last = ts(2024, 6, 15, 10, 0, 0, 1_718_445_600);
    let now = ts(2024, 6, 15, 11, 0, 1, 1_718_445_600 + 3601);
    assert!(rotation_due(last, now));
}

#[test]
fn rotation_due_on_later_date_with_later_hour() {
    // The coarser calendar branch fires on its own, whatever the epoch says.
    let last = ts(2024, 6, 15, 10, 0, 0, 1_718_445_600);
    let now = ts(2024, 6, 16, 11, 0, 0, 1_718_445_600);
    assert!(rotation_due(last, now));
}

#[test]
fn rotation_calendar_branch_needs_both_conditions() {
    // Later date but an hour-of-day that did not increase: the calendar
    // branch stays quiet, and a small epoch difference keeps the elapsed
    // branch quiet too.
    let last = ts(2024, 6, 15, 10, 0, 0, 1_718_445_600);
    let now = ts(2024, 6, 16, 10, 0, 0, 1_718_445_600 + 600);
    assert!(!rotation_due(last, now));
}

#[test]
fn once_rotated_no_second_rotation_in_the_same_hour() {
    let now = ts(2024, 6, 15, 10, 42, 17, 1_718_448_137);
    let rotated_at = now.align();
    // Exactly one rotation per boundary crossed: right after rotating,
    // the check is quiet again for the same reading.
    assert!(!rotation_due(rotated_at, now));
}

use log_revolve::path::build_path;
use log_revolve::time::Timestamp;

fn ts(year: i32, month: u32, day: u32, hour: u32, minute: u32, second: u32, epoch: i64) -> Timestamp {
    Timestamp { year, month, day, hour, minute, second, epoch }
}

#[test]
fn path_follows_the_fixed_rule() {
    let t = ts(2024, 1, 2, 3, 0, 0, 1_704_164_400);
    let p = build_path("logs", "app", t);
    assert_eq!(p, "logs/app_2024-01-02-03-00-00.log");
}

#[test]
fn path_zero_pads_every_field() {
    let t = ts(7, 9, 8, 4, 0, 0, 1_000);
    let p = build_path("d", "c", t);
    assert_eq!(p, "d/c_0007-09-08-04-00-00.log");
}

#[test]
fn path_is_deterministic() {
    let t = ts(2024, 12, 31, 23, 0, 0, 1_735_686_000);
    let p1 = build_path("/var/log", "metrics", t);
    let p2 = build_path("/var/log", "metrics", t);
    assert_eq!(p1, p2);
    assert_eq!(p1, "/var/log/metrics_2024-12-31-23-00-00.log");
}

#[test]
fn paths_differ_across_hours() {
    let t1 = ts(2024, 6, 15, 10, 0, 0, 1_718_445_600);
    let t2 = ts(2024, 6, 15, 11, 0, 0, 1_718_449_200);
    assert_ne!(build_path("logs", "app", t1), build_path("logs", "app", t2));
}

#[test]
fn path_keeps_unaligned_minutes_and_seconds_verbatim() {
    // `build_path` renders whatever timestamp it is given; rotation hands
    // it aligned ones, whose minute and second render as zeros.
    let t = ts(2024, 6, 15, 10, 42, 17, 1_718_448_137);
    assert_eq!(build_path("logs", "app", t), "logs/app_2024-06-15-10-42-17.log");
    assert_eq!(build_path("logs", "app", t.align()), "logs/app_2024-06-15-10-00-00.log");
}

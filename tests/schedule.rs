use rustsync::schedule::{ScheduleError, Timeline, TickStep};

const AT_14_06_59: i64 = 1709647619000;
const AT_14_07_00: i64 = 1709647620000;
const AT_14_07_01: i64 = 1709647621000;
const AT_14_08_00: i64 = 1709647680000;

#[test]
fn every_minute_first_fire_waits_one_second() {
    let mut t = Timeline::register("0 * * * * *", AT_14_06_59).unwrap();
    assert_eq!(t.next_step(AT_14_06_59), Some(TickStep { fire_ms: AT_14_07_00, wait_ms: 1000 }));
}

#[test]
fn every_minute_late_start_runs_at_once() {
    let mut t = Timeline::register("0 * * * * *", AT_14_06_59).unwrap();
    assert_eq!(t.next_step(AT_14_07_01), Some(TickStep { fire_ms: AT_14_07_00, wait_ms: 0 }));
    // the following tick is the next minute, not a queued repeat
    assert_eq!(t.next_step(AT_14_07_01), Some(TickStep { fire_ms: AT_14_08_00, wait_ms: 59_000 }));
}

#[test]
fn missed_ticks_collapse_into_one_run() {
    let mut t = Timeline::register("* * * * * *", AT_14_06_59).unwrap();
    // the job overran five seconds past the first tick
    let late = AT_14_07_00 + 5_000;
    assert_eq!(t.next_step(AT_14_06_59), Some(TickStep { fire_ms: AT_14_07_00, wait_ms: 1000 }));
    assert_eq!(t.next_step(late), Some(TickStep { fire_ms: AT_14_07_00 + 1000, wait_ms: 0 }));
    assert_eq!(t.next_step(late), Some(TickStep { fire_ms: late + 1000, wait_ms: 1000 }));
}

#[test]
fn sub_second_start_waits_the_remainder() {
    let mut t = Timeline::register("0 * * * * *", AT_14_06_59 + 500).unwrap();
    assert_eq!(t.next_step(AT_14_06_59 + 500), Some(TickStep { fire_ms: AT_14_07_00, wait_ms: 500 }));
}

#[test]
fn fire_times_strictly_increase() {
    let mut t = Timeline::register("*/5 * * * * *", AT_14_06_59).unwrap();
    let mut last = AT_14_06_59;
    let mut now = AT_14_06_59;
    for _ in 0..20 {
        let s = t.next_step(now).unwrap();
        assert!(s.fire_ms > last);
        assert_eq!(s.wait_ms as i64, (s.fire_ms - now).max(0));
        last = s.fire_ms;
        now += 3_000;
    }
}

fn fires_within(expression: &str, start: i64, end: i64) -> Vec<i64> {
    let mut t = Timeline::register(expression, start).unwrap();
    let mut fires = Vec::new();
    let mut now = start;
    loop {
        let s = t.next_step(now).unwrap();
        if s.fire_ms > end {
            return fires;
        }
        now += s.wait_ms as i64;
        fires.push(now);
    }
}

#[test]
fn one_and_five_second_tasks_over_ten_seconds() {
    let start = AT_14_07_00 + 200;
    let end = start + 10_000;
    let a = fires_within("*/1 * * * * *", start, end);
    let b = fires_within("*/5 * * * * *", start, end);
    assert_eq!(a.len(), 10);
    assert_eq!(b.len(), 2);
    assert!(a.windows(2).all(|w| w[0] < w[1]));
    assert!(b.windows(2).all(|w| w[0] < w[1]));
}

#[test]
fn malformed_expression_is_refused() {
    assert!(matches!(Timeline::register("not a cron", AT_14_06_59), Err(ScheduleError::InvalidExpression)));
    assert!(matches!(Timeline::register("", AT_14_06_59), Err(ScheduleError::InvalidExpression)));
}

#[test]
fn out_of_range_instant_is_refused() {
    assert!(matches!(Timeline::register("0 * * * * *", -1), Err(ScheduleError::InstantOutOfRange)));
    assert!(matches!(
        Timeline::register("0 * * * * *", rustsync::schedule::LAST_INSTANT_MS + 1),
        Err(ScheduleError::InstantOutOfRange)
    ));
}

#[test]
fn schedule_with_no_later_instant_ends() {
    let mut t = Timeline::register("0 0 0 1 1 * 2020", AT_14_06_59).unwrap();
    assert_eq!(t.next_step(AT_14_06_59), None);
}

#[test]
fn register_now_then_step() {
    let mut t = Timeline::register_now("* * * * * *").unwrap();
    let s = t.next_step_now().unwrap();
    assert!(s.wait_ms <= 1000);
}

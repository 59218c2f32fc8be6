use rustsync::clock::LocalTime;
use rustsync::planner::{plan_backup, plan_backup_now};

fn at(year: i32, month: u32, day: u32, hour: u32, minute: u32) -> LocalTime {
    LocalTime { year, month, day, hour, minute, second: 0 }
}

#[test]
fn plan_daily_backup_layout() {
    let plan = plan_backup("/out", "daily", &at(2024, 3, 5, 14, 7));
    assert_eq!(plan.directory, "/out/daily/2024/03/05");
    assert_eq!(plan.archive, "/out/daily/2024/03/05/daily_14-07.tar");
}

#[test]
fn plan_is_the_same_when_repeated() {
    let t = at(2024, 3, 5, 14, 7);
    let first = plan_backup("/out", "daily", &t);
    let second = plan_backup("/out", "daily", &t);
    assert_eq!(first.directory, second.directory);
    assert_eq!(first.archive, second.archive);
}

#[test]
fn plan_root_with_trailing_separator() {
    let plan = plan_backup("/out/", "daily", &at(2024, 12, 31, 0, 0));
    assert_eq!(plan.archive, "/out/daily/2024/12/31/daily_00-00.tar");
}

#[test]
fn plan_relative_and_empty_root() {
    let plan = plan_backup("backups", "b", &at(2024, 1, 9, 9, 5));
    assert_eq!(plan.archive, "backups/b/2024/01/09/b_09-05.tar");
    let plan = plan_backup("", "b", &at(2024, 1, 9, 9, 5));
    assert_eq!(plan.directory, "b/2024/01/09");
}

#[test]
fn plan_absolute_name_replaces_root() {
    let plan = plan_backup("/out", "/abs", &at(2024, 1, 9, 23, 59));
    assert_eq!(plan.directory, "/abs/2024/01/09");
    assert_eq!(plan.archive, "/abs_23-59.tar");
}

#[test]
fn plan_pads_small_years() {
    let plan = plan_backup("/r", "n", &at(7, 1, 1, 0, 0));
    assert_eq!(plan.directory, "/r/n/0007/01/01");
}

#[test]
fn plan_signs_years_outside_four_digits() {
    assert_eq!(plan_backup("/r", "n", &at(12345, 1, 1, 0, 0)).directory, "/r/n/+12345/01/01");
    assert_eq!(plan_backup("/r", "n", &at(-5, 1, 1, 0, 0)).directory, "/r/n/-0005/01/01");
    assert_eq!(plan_backup("/r", "n", &at(-20000, 1, 1, 0, 0)).directory, "/r/n/-20000/01/01");
}

#[test]
fn plan_now_uses_one_reading() {
    let (t, plan) = plan_backup_now("/out", "daily");
    assert!(t.month >= 1 && t.month <= 12);
    assert!(t.day >= 1 && t.day <= 31);
    assert!(t.hour < 24 && t.minute < 60);
    let again = plan_backup("/out", "daily", &t);
    assert_eq!(plan.directory, again.directory);
    assert_eq!(plan.archive, again.archive);
}

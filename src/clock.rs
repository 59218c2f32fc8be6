use vstd::prelude::*;
use chrono::{Datelike, Timelike};

verus! {

/// A local wall-clock reading, broken into its calendar fields.
#[derive(Clone, Copy, Debug, PartialEq, Eq, Structural)]
pub struct LocalTime {
    pub year: i32,
    pub month: u32,
    pub day: u32,
    pub hour: u32,
    pub minute: u32,
    pub second: u32,
}

impl LocalTime {
    /// Every field lies in its calendar range.
    pub open spec fn wf(&self) -> bool {
        &&& 1 <= self.month <= 12
        &&& 1 <= self.day <= 31
        &&& self.hour < 24
        &&& self.minute < 60
        &&& self.second < 60
    }
}

/// Relies on chrono::Local::now with the Datelike and Timelike accessors:
/// month is 1..=12, day 1..=31, hour 0..=23, minute and second 0..=59.
#[verifier::external_body]
pub(crate) fn read_local_time() -> (r: LocalTime)
    ensures
        r.wf(),
{
    let now = chrono::Local::now();
    LocalTime {
        year: now.year(),
        month: now.month(),
        day: now.day(),
        hour: now.hour(),
        minute: now.minute(),
        second: now.second(),
    }
}

} // verus!

verus! {

/// Relies on chrono::Local::now, read as local wall-clock milliseconds since
/// 1970-01-01T00:00:00. Nothing is promised of the reading.
#[verifier::external_body]
pub(crate) fn read_local_millis() -> (r: i64) {
    chrono::Local::now().naive_local().and_utc().timestamp_millis()
}

} // verus!

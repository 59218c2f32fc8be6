use vstd::prelude::*;
use vstd::string::*;
use crate::clock::read_local_millis;

verus! {

#[verifier::external_type_specification]
#[verifier::external_body]
pub struct ExSchedule(cron::Schedule);

#[verifier::external_type_specification]
#[verifier::external_body]
pub struct ExCronError(cron::error::Error);

/// The latest instant a timeline handles: 9999-12-31T23:59:59.999, in
/// wall-clock milliseconds since 1970-01-01.
pub const LAST_INSTANT_MS: i64 = 253402300799999;

/// Whether the cron grammar accepts an expression.
pub uninterp spec fn cron_accepts(expression: Seq<char>) -> bool;

/// Relies on cron::Schedule::from_str: it accepts or refuses the expression
/// on the text alone.
#[verifier::external_body]
fn parse_schedule(expression: &str) -> (r: Result<cron::Schedule, cron::error::Error>)
    ensures
        r is Ok <==> cron_accepts(expression@),
{
    <cron::Schedule as std::str::FromStr>::from_str(expression)
}

/// The first instant of the schedule that `expression` describes strictly
/// after `after_ms`, in wall-clock milliseconds, if there is one.
pub uninterp spec fn cron_next_after(expression: Seq<char>, after_ms: int) -> Option<i64>;

/// Relies on cron::Schedule::from_str, then cron::Schedule::after and the
/// first item of its iterator, on wall-clock instants (taken in `Utc`, which
/// has no gaps or repeats). The result depends on the text and the instant
/// alone; a refused expression gives `None`. The query starts one second after
/// `after_ms`, so what it yields is later than `after_ms`.
#[verifier::external_body]
fn first_fire_after(expression: &str, after_ms: i64) -> (r: Option<i64>)
    requires
        0 <= after_ms <= LAST_INSTANT_MS,
    ensures
        r == cron_next_after(expression@, after_ms as int),
        r matches Some(f) ==> f > after_ms,
        !cron_accepts(expression@) ==> r is None,
{
    match (<cron::Schedule as std::str::FromStr>::from_str(expression),
        chrono::DateTime::from_timestamp_millis(after_ms)) {
        (Ok(schedule), Some(at)) => match schedule.after(&at).next() {
            Some(next) => Some(next.timestamp_millis()),
            None => None,
        },
        _ => None,
    }
}

/// Why a recurring task could not be registered.
#[derive(Clone, Copy, Debug, PartialEq, Eq, Structural)]
pub enum ScheduleError {
    /// The cron expression is malformed.
    InvalidExpression,
    /// The registration instant lies outside `0..=LAST_INSTANT_MS`.
    InstantOutOfRange,
}

/// One decision of a timeline: when the tick is due, and how long to wait
/// from now before running it.
#[derive(Clone, Copy, Debug, PartialEq, Eq, Structural)]
pub struct TickStep {
    pub fire_ms: i64,
    pub wait_ms: u64,
}

/// How long to wait before a tick due at `fire`, seen at `now`: the time left,
/// or nothing when the tick is due or missed.
pub open spec fn wait_for(fire: int, now: int) -> int {
    if fire > now { fire - now } else { 0 }
}

/// Where the next query starts after a tick due at `fire`, decided at `now`:
/// after the tick itself, or after `now` when the tick was missed, so that
/// the ticks missed meanwhile collapse into the one run that happens at once.
pub open spec fn cursor_after(fire: int, now: int) -> int {
    if fire > now { fire } else { now }
}

/// The running state of one recurring task: its parsed schedule and the
/// instant after which the next tick is sought. Instants are local
/// wall-clock milliseconds since 1970-01-01, so a tick falls at the wall-clock
/// time that its expression names; across a daylight-saving change one wait
/// is an hour off.
pub struct Timeline {
    expression: String,
    cursor: i64,
}

impl Timeline {
    /// The cron expression the timeline follows.
    pub closed spec fn expression(&self) -> Seq<char> {
        self.expression@
    }

    /// The instant after which the next tick is sought.
    pub closed spec fn cursor(&self) -> int {
        self.cursor as int
    }

    pub closed spec fn wf(&self) -> bool {
        self.cursor >= 0
    }

    /// `next` is what `prev` becomes when step `s` is decided at `now`.
    pub open spec fn stepped(prev: Timeline, now: int, s: TickStep, next: Timeline) -> bool {
        &&& cron_next_after(prev.expression(), prev.cursor()) == Some(s.fire_ms)
        &&& s.fire_ms > prev.cursor()
        &&& next.expression() == prev.expression()
        &&& s.wait_ms == wait_for(s.fire_ms as int, now)
        &&& next.cursor() == cursor_after(s.fire_ms as int, now)
        &&& next.wf()
    }

    /// Parses `expression` and starts the timeline at `now_ms`: the first
    /// tick is the first instant of the schedule after it.
    pub fn register(expression: &str, now_ms: i64) -> (r: Result<Timeline, ScheduleError>)
        ensures
            r matches Err(e) ==> (e == ScheduleError::InvalidExpression <==> !cron_accepts(
                expression@,
            )),
            r matches Err(e) ==> (e == ScheduleError::InstantOutOfRange <==> (cron_accepts(
                expression@,
            ) && !(0 <= now_ms <= LAST_INSTANT_MS))),
            r is Ok <==> cron_accepts(expression@) && 0 <= now_ms <= LAST_INSTANT_MS,
            r matches Ok(t) ==> t.wf() && t.cursor() == now_ms && t.expression() == expression@,
    {
        match parse_schedule(expression) {
            Ok(_) => {
                if 0 <= now_ms && now_ms <= LAST_INSTANT_MS {
                    Ok(Timeline { expression: String::from_str(expression), cursor: now_ms })
                } else {
                    Err(ScheduleError::InstantOutOfRange)
                }
            },
            Err(_) => Err(ScheduleError::InvalidExpression),
        }
    }

    /// Registers `expression` at the present local time.
    pub fn register_now(expression: &str) -> (r: Result<Timeline, ScheduleError>)
        ensures
            r matches Err(e) ==> (e == ScheduleError::InvalidExpression <==> !cron_accepts(
                expression@,
            )),
            r matches Ok(t) ==> t.wf() && cron_accepts(expression@) && t.expression() == expression@,
    {
        let now = read_local_millis();
        Timeline::register(expression, now)
    }

    /// Decides the next tick at `now_ms`: the first instant of the schedule
    /// after the cursor, and the wait before it (none when it is due or
    /// missed). `None` when the schedule has no later instant in range; the
    /// timeline is then left as it was.
    pub fn next_step(&mut self, now_ms: i64) -> (r: Option<TickStep>)
        requires
            old(self).wf(),
        ensures
            r matches Some(s) ==> Timeline::stepped(*old(self), now_ms as int, s, *final(self)),
            r is None ==> final(self).cursor() == old(self).cursor() && final(self).wf(),
            final(self).expression() == old(self).expression(),
            old(self).cursor() <= LAST_INSTANT_MS ==> (r is None <==> cron_next_after(
                old(self).expression(),
                old(self).cursor(),
            ) is None),
            old(self).cursor() > LAST_INSTANT_MS ==> r is None,
    {
        if self.cursor > LAST_INSTANT_MS {
            return None;
        }
        match first_fire_after(self.expression.as_str(), self.cursor) {
            Some(fire) => {
                let wait: u64 = if fire > now_ms {
                    (fire as i128 - now_ms as i128) as u64
                } else {
                    0
                };
                self.cursor = if fire > now_ms { fire } else { now_ms };
                Some(TickStep { fire_ms: fire, wait_ms: wait })
            },
            None => None,
        }
    }

    /// Decides the next tick at the present local time.
    pub fn next_step_now(&mut self) -> (r: Option<TickStep>)
        requires
            old(self).wf(),
        ensures
            r matches Some(s) ==> exists|now: int| Timeline::stepped(*old(self), now, s, *final(self)),
            r matches Some(s) ==> final(self).cursor() >= s.fire_ms,
            r is None ==> final(self).cursor() == old(self).cursor() && final(self).wf(),
            final(self).expression() == old(self).expression(),
            old(self).cursor() <= LAST_INSTANT_MS ==> (r is None <==> cron_next_after(
                old(self).expression(),
                old(self).cursor(),
            ) is None),
            old(self).cursor() > LAST_INSTANT_MS ==> r is None,
    {
        let now = read_local_millis();
        let r = self.next_step(now);
        proof {
            if let Some(s) = r {
                assert(Timeline::stepped(*old(self), now as int, s, *self));
            }
        }
        r
    }
}

/// Over two successive steps of one timeline, the fire times strictly
/// increase, and each wait is the time left until its fire time, never
/// negative.
pub proof fn lemma_fire_times_increase(
    t0: Timeline,
    now1: int,
    s1: TickStep,
    t1: Timeline,
    now2: int,
    s2: TickStep,
    t2: Timeline,
)
    requires
        Timeline::stepped(t0, now1, s1, t1),
        Timeline::stepped(t1, now2, s2, t2),
    ensures
        cron_next_after(t0.expression(), t0.cursor()) == Some(s1.fire_ms),
        cron_next_after(t0.expression(), t1.cursor()) == Some(s2.fire_ms),
        s1.fire_ms < s2.fire_ms,
        s1.wait_ms >= 0 && s2.wait_ms >= 0,
        s1.fire_ms > now1 ==> now1 + s1.wait_ms == s1.fire_ms,
        s1.fire_ms <= now1 ==> s1.wait_ms == 0,
{
}

} // verus!

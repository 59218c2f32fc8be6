use vstd::prelude::*;
use crate::schedule::{cron_accepts, ScheduleError, Timeline};

verus! {

/// One backup job: what to archive, where, under which name, on which cron
/// schedule, and whether to report every appended entry.
#[derive(Clone, Debug)]
pub struct BackupConfig {
    pub source: String,
    pub destination: String,
    pub backup_name: String,
    pub cron: String,
    pub verbose: bool,
}

/// Where finished archives are copied, and on which cron schedule.
#[derive(Clone, Debug)]
pub struct RcloneConfig {
    pub dest: String,
    pub cron: String,
}

/// Every job of one configuration, and the optional remote copy.
#[derive(Clone, Debug)]
pub struct Config {
    pub backups: Vec<BackupConfig>,
    pub rclone: Option<RcloneConfig>,
}

/// A job that could not be registered: its position and the reason.
#[derive(Clone, Copy, Debug, PartialEq, Eq, Structural)]
pub struct RegistrationError {
    pub index: usize,
    pub reason: ScheduleError,
}

/// Registers the schedule of every job, in order, before any of them runs:
/// either every job gets its timeline, or the first job whose schedule is
/// refused is reported and none is scheduled. A malformed expression is
/// reported as such exactly when the grammar refuses it.
pub fn register_all(config: &Config) -> (r: Result<Vec<Timeline>, RegistrationError>)
    ensures
        r matches Ok(v) ==> v@.len() == config.backups@.len() && (forall|i: int|
            0 <= i < v@.len() ==> (#[trigger] v@[i]).wf()) && (forall|i: int|
            0 <= i < v@.len() ==> cron_accepts((#[trigger] config.backups@[i]).cron@)),
        r matches Err(e) ==> e.index < config.backups@.len() && (forall|i: int|
            0 <= i < e.index ==> cron_accepts((#[trigger] config.backups@[i]).cron@)) && (
        e.reason == ScheduleError::InvalidExpression <==> !cron_accepts(
            config.backups@[e.index as int].cron@,
        )),
{
    let mut timelines: Vec<Timeline> = Vec::new();
    let mut i: usize = 0;
    while i < config.backups.len()
        invariant
            i <= config.backups@.len(),
            timelines@.len() == i,
            forall|k: int| 0 <= k < i ==> (#[trigger] timelines@[k]).wf(),
            forall|k: int| 0 <= k < i ==> cron_accepts((#[trigger] config.backups@[k]).cron@),
        decreases config.backups@.len() - i,
    {
        match Timeline::register_now(config.backups[i].cron.as_str()) {
            Ok(t) => {
                timelines.push(t);
            },
            Err(reason) => {
                return Err(RegistrationError { index: i, reason });
            },
        }
        i = i + 1;
    }
    Ok(timelines)
}

} // verus!

//! Scheduled full-directory backups: the archive layout, the per-entry
//! archival decisions and the recurring-task timeline, with their contracts.

pub mod archive;
pub mod clock;
pub mod config;
pub mod planner;
pub mod schedule;

//! Scheduled backups: the schedule's configuration and its ticks.

use vstd::prelude::*;
use vstd::string::*;

use crate::numbers::{parse_u64, parse_usize, spec_parse_u64, spec_parse_usize};

verus! {

/// Configuration of scheduled backups.
#[derive(Debug)]
pub struct BackupScheduleConfig {
    /// Hours between backups.
    pub interval_hours: u64,
    /// Backups kept.
    pub retention_count: usize,
    /// Directory of the backups, when not the default one.
    pub backup_dir: Option<String>,
}

impl BackupScheduleConfig {
    /// The schedule given the values of `HONE_BACKUP_SCHEDULE`,
    /// `HONE_BACKUP_RETENTION` and `HONE_BACKUP_DIR`: none unless the
    /// schedule is a positive number of hours; seven backups kept unless
    /// the retention is a number.
    pub fn from_values(schedule: Option<&str>, retention: Option<&str>, backup_dir: Option<&str>) -> (r:
        Option<Self>)
        ensures
            match schedule {
                None => r is None,
                Some(s) => match spec_parse_u64(s@) {
                    None => r is None,
                    Some(h) => if h == 0 {
                        r is None
                    } else {
                        r matches Some(c) && c.interval_hours == h && c.retention_count == match retention {
                            Some(t) => match spec_parse_usize(t@) {
                                Some(n) => n,
                                None => 7,
                            },
                            None => 7,
                        } && match backup_dir {
                            Some(d) => c.backup_dir matches Some(cd) && cd@ == d@,
                            None => c.backup_dir is None,
                        }
                    },
                },
            },
    {
        let hours = match schedule {
            Some(s) => match parse_u64(s) {
                Some(h) => h,
                None => {
                    return None;
                },
            },
            None => {
                return None;
            },
        };
        if hours == 0 {
            return None;
        }
        let retention_count = match retention {
            Some(t) => match parse_usize(t) {
                Some(n) => n,
                None => 7,
            },
            None => 7,
        };
        let dir = match backup_dir {
            Some(d) => Some(String::from_str(d)),
            None => None,
        };
        Some(BackupScheduleConfig { interval_hours: hours, retention_count, backup_dir: dir })
    }

    /// Seconds between backups.
    pub fn interval_secs(&self) -> (r: u64)
        requires
            self.interval_hours * 3600 <= u64::MAX,
        ensures
            r == self.interval_hours * 3600,
    {
        self.interval_hours * 3600
    }
}

/// The backup ticker: its first tick comes at once and is skipped, so
/// that no backup is made at startup; every later tick makes one.
#[derive(Debug)]
pub struct BackupTicker {
    pub ticks: u64,
}

impl BackupTicker {
    pub fn new() -> (r: Self)
        ensures
            r.ticks == 0,
    {
        BackupTicker { ticks: 0 }
    }

    /// Record a tick; true when a backup is due.
    pub fn tick(&mut self) -> (r: bool)
        ensures
            r == (old(self).ticks > 0),
            final(self).ticks == if old(self).ticks == u64::MAX {
                u64::MAX
            } else {
                (old(self).ticks + 1) as u64
            },
    {
        let due = self.ticks > 0;
        if self.ticks < u64::MAX {
            self.ticks = self.ticks + 1;
        }
        due
    }
}

} // verus!

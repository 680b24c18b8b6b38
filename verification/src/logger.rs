//! The settings of the log output.

use vstd::prelude::*;

verus! {

/// How much a log line matters, from the most important level down.
#[derive(Clone, Copy, Debug, PartialEq, Eq, Structural)]
pub enum Level {
    Error,
    Warn,
    Info,
    Debug,
    Trace,
}

impl Level {
    /// The level's rank: 1 for `Error` up to 5 for `Trace`.
    pub open spec fn rank_of(self) -> int {
        match self {
            Level::Error => 1,
            Level::Warn => 2,
            Level::Info => 3,
            Level::Debug => 4,
            Level::Trace => 5,
        }
    }

    /// The level's rank: 1 for `Error` up to 5 for `Trace`.
    pub fn rank(&self) -> (n: u8)
        ensures
            n == self.rank_of(),
    {
        match self {
            Level::Error => 1,
            Level::Warn => 2,
            Level::Info => 3,
            Level::Debug => 4,
            Level::Trace => 5,
        }
    }
}

/// The settings of the log output.
#[derive(Debug)]
pub struct LogPlugin {
    /// A filter on the origin of log lines; empty for no filter.
    pub filter: String,
    /// Lines that matter less than this level are left out.
    pub level: Level,
}

impl LogPlugin {
    /// Whether a line of `level` is written: it is, unless it matters less
    /// than the level that the settings name.
    pub fn enabled(&self, level: Level) -> (r: bool)
        ensures
            r == (level.rank_of() <= self.level.rank_of()),
    {
        level.rank() <= self.level.rank()
    }
}

impl Default for LogPlugin {
    /// No filter, and every line down to `Trace`.
    fn default() -> (p: LogPlugin)
        ensures
            p.filter@ == Seq::<char>::empty(),
            p.level == Level::Trace,
    {
        LogPlugin { filter: String::new(), level: Level::Trace }
    }
}

} // verus!

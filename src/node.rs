//! Node status as the command line shows it: how far the head lags behind
//! the wall clock, and whether log output is coloured.
use vstd::prelude::*;

verus! {

/// Seconds per epoch.
pub const EPOCH_DURATION_SECONDS: i64 = 30;

/// The command that shows the node's status.
#[derive(Debug, Clone, Copy, PartialEq, Eq, Structural)]
pub enum InfoCommand {
    Show,
}

/// How the head's age compares with the epoch duration.
#[derive(Debug, Clone, Copy, PartialEq, Eq, Structural)]
pub enum SyncStatus {
    Synced,
    Slow,
    Behind,
    Fast,
}

impl SyncStatus {
    /// The status's name.
    pub fn name(&self) -> (r: &'static str)
        ensures
            r@ == match *self {
                SyncStatus::Synced => "Ok"@,
                SyncStatus::Slow => "Slow"@,
                SyncStatus::Behind => "Behind"@,
                SyncStatus::Fast => "Fast"@,
            },
    {
        match self {
            SyncStatus::Synced => "Ok",
            SyncStatus::Slow => "Slow",
            SyncStatus::Behind => "Behind",
            SyncStatus::Fast => "Fast",
        }
    }
}

/// The status for a head that is `lag` seconds old: ahead of the clock is
/// fast; within one and a half epochs is fine; within five epochs is slow;
/// older is behind.
pub open spec fn status_of(lag: int) -> SyncStatus {
    if lag < 0 {
        SyncStatus::Fast
    } else if lag < EPOCH_DURATION_SECONDS * 3 / 2 {
        SyncStatus::Synced
    } else if lag < EPOCH_DURATION_SECONDS * 5 {
        SyncStatus::Slow
    } else {
        SyncStatus::Behind
    }
}

/// The status for a head that is `lag` seconds old.
pub fn sync_status(lag: i64) -> (r: SyncStatus)
    ensures
        r == status_of(lag as int),
{
    if lag < 0 {
        SyncStatus::Fast
    } else if lag < EPOCH_DURATION_SECONDS * 3 / 2 {
        SyncStatus::Synced
    } else if lag < EPOCH_DURATION_SECONDS * 5 {
        SyncStatus::Slow
    } else {
        SyncStatus::Behind
    }
}

/// How many seconds the head, stamped `head_timestamp`, lags behind the
/// clock at `now`; negative when the head is ahead.
pub fn sync_lag(now: i64, head_timestamp: i64) -> (r: i128)
    ensures
        r == now - head_timestamp,
{
    now as i128 - head_timestamp as i128
}

/// When log output is coloured.
#[derive(Debug, Clone, Copy, PartialEq, Eq, Structural)]
pub enum LoggingColor {
    Always,
    Auto,
    Never,
}

impl Default for LoggingColor {
    fn default() -> (r: LoggingColor)
        ensures
            r == LoggingColor::Auto,
    {
        LoggingColor::Auto
    }
}

impl LoggingColor {
    /// Whether output is coloured, given whether standard output is a
    /// terminal: always, never, or exactly when it is a terminal.
    pub fn coloring_enabled(&self, stdout_is_terminal: bool) -> (r: bool)
        ensures
            r == match *self {
                LoggingColor::Always => true,
                LoggingColor::Never => false,
                LoggingColor::Auto => stdout_is_terminal,
            },
    {
        match self {
            LoggingColor::Auto => stdout_is_terminal,
            LoggingColor::Always => true,
            LoggingColor::Never => false,
        }
    }
}

} // verus!

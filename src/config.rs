//! The logger configuration chosen from the process's two logging flags.
use vstd::prelude::*;

verus! {

/// Severity of one log record, from the most to the least urgent.
#[derive(Clone, Copy, Debug, PartialEq, Eq, Structural)]
pub enum Severity {
    Error,
    Warn,
    Info,
    Debug,
    Trace,
}

/// Most verbose severity that a logger lets through; `Off` lets nothing through.
#[derive(Clone, Copy, Debug, PartialEq, Eq, Structural)]
pub enum Threshold {
    Off,
    Error,
    Warn,
    Info,
    Debug,
    Trace,
}

impl Severity {
    /// Position in the order `Error < Warn < Info < Debug < Trace`, from 1.
    pub open spec fn spec_rank(self) -> nat {
        match self {
            Severity::Error => 1,
            Severity::Warn => 2,
            Severity::Info => 3,
            Severity::Debug => 4,
            Severity::Trace => 5,
        }
    }

    pub fn rank(&self) -> (r: u8)
        ensures
            r as nat == self.spec_rank(),
    {
        match self {
            Severity::Error => 1,
            Severity::Warn => 2,
            Severity::Info => 3,
            Severity::Debug => 4,
            Severity::Trace => 5,
        }
    }
}

impl Threshold {
    /// Rank of the most verbose severity let through; 0 for `Off`.
    pub open spec fn spec_rank(self) -> nat {
        match self {
            Threshold::Off => 0,
            Threshold::Error => 1,
            Threshold::Warn => 2,
            Threshold::Info => 3,
            Threshold::Debug => 4,
            Threshold::Trace => 5,
        }
    }

    pub fn rank(&self) -> (r: u8)
        ensures
            r as nat == self.spec_rank(),
    {
        match self {
            Threshold::Off => 0,
            Threshold::Error => 1,
            Threshold::Warn => 2,
            Threshold::Info => 3,
            Threshold::Debug => 4,
            Threshold::Trace => 5,
        }
    }

    /// Whether a record of severity `level` passes this threshold.
    pub open spec fn spec_admits(self, level: Severity) -> bool {
        level.spec_rank() <= self.spec_rank()
    }

    pub fn admits(&self, level: Severity) -> (r: bool)
        ensures
            r == self.spec_admits(level),
    {
        level.rank() <= self.rank()
    }
}

/// Threshold of a process that runs without debug logging.
pub const LOG_LEVEL: Threshold = Threshold::Info;

/// Threshold of a process that runs with debug logging.
pub const LOG_LEVEL_DEBUG: Threshold = Threshold::Debug;

/// Path of the active log file.
pub const LOG_FILE_NAME: &'static str = "log/app.log";

/// Path of a rolled-over log file; `{}` stands for its index.
pub const LOG_FILE_NAME_WHEN_ROLL: &'static str = "log/app.{}.log";

/// Size in bytes past which the active log file is rolled over.
pub const LOG_FILE_SIZE: u64 = 10485760;

/// Index of the most recent rolled-over log file.
pub const LOG_FILE_BASE_INDEX: u32 = 1;

/// Number of rolled-over log files that are kept.
pub const MAX_LOG_FILE_COUNT: u32 = 5;

/// Layout of one log line: time, severity, thread, module, line and message.
pub const LOG_PATTERN: &'static str = "{d(%Y-%m-%d %H:%M:%S%.3f)} {l} [{T}] {M}:{L} - {m}{n}";

/// How the log file is rolled over.
pub struct Rotation {
    /// Path of a rolled-over file, with `{}` for its index.
    pub roll_pattern: String,
    /// Size in bytes past which the active file is rolled over.
    pub size_limit: u64,
    /// Index given to the most recent rolled-over file.
    pub base: u32,
    /// Number of rolled-over files kept; older ones are deleted.
    pub count: u32,
}

/// Where log lines go.
pub enum Destination {
    /// Standard output.
    Console,
    /// A file at `path`, rolled over as `rotation` says.
    RollingFile { path: String, rotation: Rotation },
}

/// Everything that is installed as the process-wide logger.
pub struct LoggerConfig {
    /// Threshold of both the appender's filter and the root logger.
    pub threshold: Threshold,
    /// Layout of each line.
    pub pattern: String,
    pub destination: Destination,
}

impl LoggerConfig {
    pub open spec fn is_console(&self) -> bool {
        self.destination is Console
    }

    /// Whether a record of severity `level` reaches the destination.
    pub open spec fn spec_admits(&self, level: Severity) -> bool {
        self.threshold.spec_admits(level)
    }

    pub fn admits(&self, level: Severity) -> (r: bool)
        ensures
            r == self.spec_admits(level),
    {
        self.threshold.admits(level)
    }
}

/// Threshold for the given debug flag.
pub open spec fn spec_threshold_for(debug_log: bool) -> Threshold {
    if debug_log {
        LOG_LEVEL_DEBUG
    } else {
        LOG_LEVEL
    }
}

pub fn threshold_for(debug_log: bool) -> (r: Threshold)
    ensures
        r == spec_threshold_for(debug_log),
{
    if debug_log {
        LOG_LEVEL_DEBUG
    } else {
        LOG_LEVEL
    }
}

/// The rotation of the log file: its fixed size limit, naming and window.
pub fn file_rotation() -> (r: Rotation)
    ensures
        r.roll_pattern@ == LOG_FILE_NAME_WHEN_ROLL@,
        r.size_limit == LOG_FILE_SIZE,
        r.base == LOG_FILE_BASE_INDEX,
        r.count == MAX_LOG_FILE_COUNT,
        r.well_formed(),
{
    proof {
        reveal_strlit("log/app.{}.log");
        let s = LOG_FILE_NAME_WHEN_ROLL@;
        assert(s[8] == '{' && s[9] == '}');
    }
    Rotation {
        roll_pattern: LOG_FILE_NAME_WHEN_ROLL.to_owned(),
        size_limit: LOG_FILE_SIZE,
        base: LOG_FILE_BASE_INDEX,
        count: MAX_LOG_FILE_COUNT,
    }
}

/// The configuration installed for the flags `debug_log` and `console_log`:
/// the debug threshold exactly when `debug_log` holds, standard output exactly
/// when `console_log` holds, and otherwise the rolling log file.
pub fn plan(debug_log: bool, console_log: bool) -> (r: LoggerConfig)
    ensures
        r.threshold == spec_threshold_for(debug_log),
        r.pattern@ == LOG_PATTERN@,
        r.is_console() == console_log,
        !console_log ==> r.destination->path@ == LOG_FILE_NAME@,
        !console_log ==> r.destination->rotation.roll_pattern@ == LOG_FILE_NAME_WHEN_ROLL@,
        !console_log ==> r.destination->rotation.size_limit == LOG_FILE_SIZE,
        !console_log ==> r.destination->rotation.base == LOG_FILE_BASE_INDEX,
        !console_log ==> r.destination->rotation.count == MAX_LOG_FILE_COUNT,
        !console_log ==> r.destination->rotation.well_formed(),
{
    let threshold = threshold_for(debug_log);
    let destination = if console_log {
        Destination::Console
    } else {
        Destination::RollingFile { path: LOG_FILE_NAME.to_owned(), rotation: file_rotation() }
    };
    LoggerConfig { threshold, pattern: LOG_PATTERN.to_owned(), destination }
}

/// The configuration for test runs: standard output at the debug threshold.
pub fn test_plan() -> (r: LoggerConfig)
    ensures
        r.threshold == LOG_LEVEL_DEBUG,
        r.pattern@ == LOG_PATTERN@,
        r.is_console(),
{
    LoggerConfig {
        threshold: LOG_LEVEL_DEBUG,
        pattern: LOG_PATTERN.to_owned(),
        destination: Destination::Console,
    }
}

} // verus!

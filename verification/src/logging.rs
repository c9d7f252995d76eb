//! The console logger's decisions: which records pass the severity filter,
//! the exact line emitted for a record, and the set-once installation of
//! the logger. Printing the line and registering with the process-wide
//! logging facade are the caller's (I/O) concerns.

use vstd::prelude::*;
use vstd::string::*;

verus! {

/// A record's severity level, most severe first.
#[derive(PartialEq, Eq, Structural, Clone, Copy, Debug)]
pub enum Level {
    Error,
    Warn,
    Info,
    Debug,
    Trace,
}

/// A numeric rank for a level: lower is more severe.
pub open spec fn severity(l: Level) -> nat {
    match l {
        Level::Error => 1,
        Level::Warn => 2,
        Level::Info => 3,
        Level::Debug => 4,
        Level::Trace => 5,
    }
}

/// Whether the logger emits records at level `l`: everything at info
/// severity or more severe passes, debug and trace are filtered out.
pub open spec fn spec_enabled(l: Level) -> bool {
    severity(l) <= severity(Level::Info)
}

/// The upper-case name of a level, as it opens an emitted line.
pub open spec fn level_name(l: Level) -> Seq<char> {
    match l {
        Level::Error => "ERROR"@,
        Level::Warn => "WARN"@,
        Level::Info => "INFO"@,
        Level::Debug => "DEBUG"@,
        Level::Trace => "TRACE"@,
    }
}

/// The line emitted for a record: the level's name, a separating dash, the
/// message.
pub open spec fn log_line_spec(l: Level, message: Seq<char>) -> Seq<char> {
    level_name(l) + " - "@ + message
}

/// The console logger: filters by severity and renders one line per
/// record.
pub struct SimpleLogger;

impl SimpleLogger {
    /// Whether a record at level `level` passes the filter.
    pub fn enabled(&self, level: Level) -> (r: bool)
        ensures
            r == spec_enabled(level),
    {
        match level {
            Level::Error => true,
            Level::Warn => true,
            Level::Info => true,
            Level::Debug => false,
            Level::Trace => false,
        }
    }

    /// The line to emit for a record, or nothing when the filter rejects
    /// it.
    pub fn log(&self, level: Level, message: &str) -> (r: Option<String>)
        ensures
            r is Some <==> spec_enabled(level),
            r matches Some(line) ==> line@ == log_line_spec(level, message@),
    {
        if self.enabled(level) {
            Some(format_line(level, message))
        } else {
            None
        }
    }

    /// The console logger buffers nothing, so there is nothing to flush.
    pub fn flush(&self) {
    }
}

/// Renders the line for a record that passed the filter.
fn format_line(level: Level, message: &str) -> (r: String)
    ensures
        r@ == log_line_spec(level, message@),
{
    let label = match level {
        Level::Error => "ERROR",
        Level::Warn => "WARN",
        Level::Info => "INFO",
        Level::Debug => "DEBUG",
        Level::Trace => "TRACE",
    };
    let mut out = String::from_str(label);
    out.append(" - ");
    out.append(message);
    proof {
        assert(out@ =~= log_line_spec(level, message@));
    }
    out
}

/// What a successful installation configures: records up to this level are
/// kept by the facade before they reach the logger's own filter.
#[derive(PartialEq, Eq, Structural, Clone, Copy, Debug)]
pub struct LogConfig {
    pub max_level: Level,
}

/// The failure of a repeated installation.
#[derive(PartialEq, Eq, Structural, Clone, Copy, Debug)]
pub enum LogError {
    /// A logger was already installed; the registry keeps the first one.
    AlreadyInitialized,
}

/// The set-once slot a process-wide logger lives in. The process has one
/// such registry; it is passed in rather than held in a global, so every
/// use of it is explicit.
pub struct LoggerRegistry {
    installed: Option<LogConfig>,
}

impl View for LoggerRegistry {
    type V = Option<LogConfig>;

    closed spec fn view(&self) -> Option<LogConfig> {
        self.installed
    }
}

impl LoggerRegistry {
    /// A registry with no logger installed yet.
    pub fn new() -> (r: LoggerRegistry)
        ensures
            r@ is None,
    {
        LoggerRegistry { installed: None }
    }
}

/// Installs the console logger, keeping records up to the info level.
/// Succeeds exactly on the first call: a registry installs at most one
/// logger, and a later call fails and changes nothing.
pub fn init(registry: &mut LoggerRegistry) -> (r: Result<(), LogError>)
    ensures
        r is Ok <==> old(registry)@ is None,
        old(registry)@ is None ==> final(registry)@ == Some(
            LogConfig { max_level: Level::Info },
        ),
        old(registry)@ is Some ==> r == Err::<(), LogError>(LogError::AlreadyInitialized)
            && final(registry)@ == old(registry)@,
{
    match registry.installed {
        None => {
            registry.installed = Some(LogConfig { max_level: Level::Info });
            Ok(())
        },
        Some(_) => Err(LogError::AlreadyInitialized),
    }
}

} // verus!

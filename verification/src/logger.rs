//! The engine's log sink, as plain state.
//!
//! Printing, the temporary file and the global logger hookup are I/O and
//! live outside this crate. What is decided here: which levels are
//! recorded at all, that a recorded error marks the log, and that the
//! marked log is the one worth persisting when the program ends.

use vstd::prelude::*;

verus! {

/// Severity of one log line, most severe first.
#[derive(Clone, Copy, PartialEq, Eq, Structural, Debug)]
pub enum Level {
    Error,
    Warn,
    Info,
    Debug,
    Trace,
}

/// A numeric rank for severity: smaller is more severe.
pub open spec fn severity(level: Level) -> int {
    match level {
        Level::Error => 1,
        Level::Warn => 2,
        Level::Info => 3,
        Level::Debug => 4,
        Level::Trace => 5,
    }
}

/// The log sink: the recorded lines in order, and whether any of them was
/// an error.
pub struct Logger {
    messages: Vec<String>,
    did_error: bool,
}

impl Logger {
    /// The recorded lines, in order.
    pub closed spec fn spec_messages(&self) -> Seq<String> {
        self.messages@
    }

    /// Whether an error was recorded.
    pub closed spec fn spec_did_error(&self) -> bool {
        self.did_error
    }

    /// Whether a line at `level` is recorded at all: everything up to
    /// informational, nothing more verbose.
    pub fn enabled(&self, level: Level) -> (r: bool)
        ensures
            r == (severity(level) <= severity(Level::Info)),
    {
        match level {
            Level::Error => true,
            Level::Warn => true,
            Level::Info => true,
            Level::Debug => false,
            Level::Trace => false,
        }
    }

    /// Records `message` if its level is enabled; a recorded error marks
    /// the log. A line above the verbosity cutoff changes nothing.
    pub fn log(&mut self, level: Level, message: String)
        ensures
            severity(level) <= severity(Level::Info) ==> {
                &&& final(self).spec_messages() == old(self).spec_messages().push(message)
                &&& final(self).spec_did_error() == (old(self).spec_did_error() || level
                    == Level::Error)
            },
            severity(level) > severity(Level::Info) ==> {
                &&& final(self).spec_messages() == old(self).spec_messages()
                &&& final(self).spec_did_error() == old(self).spec_did_error()
            },
    {
        if self.enabled(level) {
            self.messages.push(message);
            if matches!(level, Level::Error) {
                self.did_error = true;
            }
        }
    }

    /// Nothing is buffered: flushing has nothing to do.
    pub fn flush(&self) {
    }

    /// The number of recorded lines.
    pub fn len(&self) -> (r: usize)
        ensures
            r == self.spec_messages().len(),
    {
        self.messages.len()
    }
}

/// The decision a closing program asks for: whether the log of this run is
/// worth persisting. It is exactly when an error was recorded.
pub struct LogGuard {
    persist: bool,
}

impl LogGuard {
    /// Whether the log should be persisted.
    pub closed spec fn spec_persist(&self) -> bool {
        self.persist
    }

    /// Captures the persistence decision from the log sink as it stands.
    pub fn capture(logger: &Logger) -> (g: LogGuard)
        ensures
            g.spec_persist() == logger.spec_did_error(),
    {
        LogGuard { persist: logger.did_error }
    }

    /// Whether the log should be persisted: only a log that recorded an
    /// error is.
    pub fn should_persist(&self) -> (r: bool)
        ensures
            r == self.spec_persist(),
    {
        self.persist
    }
}

/// A fresh log sink: no lines, no error recorded. The caller installs it
/// behind whatever logging facade it uses.
pub fn set_logger() -> (r: Logger)
    ensures
        r.spec_messages().len() == 0,
        !r.spec_did_error(),
{
    Logger { messages: Vec::new(), did_error: false }
}

} // verus!

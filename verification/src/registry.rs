//! Process-wide registration, modelled as an explicit set-once cell: one
//! backend may be installed, exactly once, and is never replaced.

use vstd::prelude::*;

use crate::level::Level;
use crate::logger::FileLogger;
use crate::logger::Record;
use crate::logger::Transcript;
use crate::logger::line_of;

verus! {

/// Returned by `init` and `init_with_level` when a backend has already been
/// installed. The prior installation is unaffected.
#[derive(Clone, Copy, Debug, PartialEq, Eq, Structural)]
pub struct AlreadyInitializedError {
}

/// The facade's view of the process: a set-once cell holding the active
/// backend. Uninitialized at first; `init_with_level` performs the one
/// irreversible transition to initialized, and every later attempt fails.
pub struct Registry {
    active: Option<FileLogger>,
}

impl Registry {
    /// The installed backend, if any.
    pub closed spec fn spec_active(&self) -> Option<FileLogger> {
        self.active
    }

    /// Whether a backend has been installed.
    pub open spec fn spec_installed(&self) -> bool {
        self.spec_active() is Some
    }

    /// The process-wide severity ceiling: the installed backend's threshold.
    pub open spec fn spec_ceiling(&self) -> Option<Level> {
        match self.spec_active() {
            Some(l) => Some(l.spec_level()),
            None => None,
        }
    }

    /// An uninitialized registry: no backend installed.
    pub fn new() -> (r: Registry)
        ensures
            !r.spec_installed(),
    {
        Registry { active: None }
    }

    /// Whether a backend has been installed.
    pub fn installed(&self) -> (r: bool)
        ensures
            r == self.spec_installed(),
    {
        self.active.is_some()
    }

    /// The fast-path filter the facade runs before building a record: true
    /// iff a backend is installed and `level` is at least as severe as the
    /// ceiling. Agrees with the installed backend's own `enabled` check.
    pub fn enabled(&self, level: Level) -> (r: bool)
        ensures
            r == (self.spec_installed()
                && level.at_least_as_severe_as(self.spec_ceiling()->Some_0)),
    {
        match &self.active {
            Some(logger) => logger.enabled(level),
            None => false,
        }
    }

    /// Dispatch a record to the installed backend, if any: with no backend
    /// installed nothing happens; otherwise the backend's own filtering and
    /// rendering applies, appending at most one line to `sink`.
    pub fn log(&self, sink: &mut Transcript, record: &Record)
        ensures
            !self.spec_installed() ==> final(sink)@ == old(sink)@,
            self.spec_installed() && !self.spec_active()->Some_0.spec_enabled(record.level)
                ==> final(sink)@ == old(sink)@,
            self.spec_installed() && self.spec_active()->Some_0.spec_enabled(record.level)
                ==> exists|ts: Seq<char>|
                    ts.len() > 0 && final(sink)@ == old(sink)@.push(line_of(ts, record.message@)),
    {
        match &self.active {
            Some(logger) => logger.log(sink, record),
            None => (),
        }
    }

    /// Finish writing through the installed backend. A no-op, as the
    /// backend's own `flush` is.
    pub fn flush(&self) {
        match &self.active {
            Some(logger) => logger.flush(),
            None => (),
        }
    }
}

/// Install a file-backed backend for the given destination and threshold.
/// Succeeds exactly when no backend was installed before; the success
/// installs the new backend and sets the severity ceiling to `level`. When
/// one is already installed, fails with `AlreadyInitializedError` and
/// leaves the prior installation untouched.
pub fn init_with_level(registry: &mut Registry, log_file: String, level: Level) -> (r: Result<
    (),
    AlreadyInitializedError,
>)
    ensures
        r is Ok <==> !old(registry).spec_installed(),
        old(registry).spec_installed() ==> *final(registry) == *old(registry),
        !old(registry).spec_installed() ==> {
            &&& final(registry).spec_installed()
            &&& final(registry).spec_active()->Some_0.spec_log_file() == log_file@
            &&& final(registry).spec_active()->Some_0.spec_level() == level
            &&& final(registry).spec_ceiling() == Some(level)
        },
{
    if registry.installed() {
        Err(AlreadyInitializedError {  })
    } else {
        registry.active = Some(FileLogger::new(log_file, level));
        Ok(())
    }
}

/// Install a file-backed backend that logs every record: the threshold is
/// fixed to `Trace`, the most permissive level. Same set-once behaviour as
/// `init_with_level`.
pub fn init(registry: &mut Registry, log_file: String) -> (r: Result<
    (),
    AlreadyInitializedError,
>)
    ensures
        r is Ok <==> !old(registry).spec_installed(),
        old(registry).spec_installed() ==> *final(registry) == *old(registry),
        !old(registry).spec_installed() ==> {
            &&& final(registry).spec_installed()
            &&& final(registry).spec_active()->Some_0.spec_log_file() == log_file@
            &&& final(registry).spec_active()->Some_0.spec_level() == Level::Trace
            &&& final(registry).spec_ceiling() == Some(Level::Trace)
        },
{
    init_with_level(registry, log_file, Level::Trace)
}

} // verus!

use vstd::prelude::*;

use crate::android_log::Log;
use crate::sys::LogPriority;
use crate::sys::NativeCall;
use crate::sys::nul_free;

verus! {

/// Severity of a record handed over by the generic logging facade.
#[derive(Clone, Copy, Debug, PartialEq, Eq, Structural)]
pub enum Level {
    Error,
    Warn,
    Info,
    Debug,
    Trace,
}

impl Level {
    /// The native priority each facade level maps to: the facade's `Trace`
    /// is the sink's `VERBOSE`, the rest keep their names.
    pub open spec fn priority_spec(self) -> LogPriority {
        match self {
            Level::Error => LogPriority::ERROR,
            Level::Warn => LogPriority::WARN,
            Level::Info => LogPriority::INFO,
            Level::Debug => LogPriority::DEBUG,
            Level::Trace => LogPriority::VERBOSE,
        }
    }

    /// The native priority this facade level maps to.
    pub fn priority(self) -> (r: LogPriority)
        ensures
            r == self.priority_spec(),
    {
        match self {
            Level::Error => LogPriority::ERROR,
            Level::Warn => LogPriority::WARN,
            Level::Info => LogPriority::INFO,
            Level::Debug => LogPriority::DEBUG,
            Level::Trace => LogPriority::VERBOSE,
        }
    }
}

/// Relies on log::set_max_level: it stores the given filter in the facade's
/// process-wide filter slot, so that the facade hands every record through
/// to the active logger. Filtering is delegated entirely to this sink.
#[verifier::external_body]
pub(crate) fn set_facade_max_level() {
    log::set_max_level(log::LevelFilter::Trace);
}

impl Log {
    /// The facade's `enabled` check: only the global on/off switch decides;
    /// the record's level is not consulted.
    pub fn facade_enabled(&self, _level: Level) -> (r: bool)
        ensures
            r == self@.enabled,
    {
        self.is_enabled()
    }

    /// The facade's `log` operation: a no-op while disabled; otherwise one
    /// native call under the current global tag, at the priority the
    /// record's level maps to, with the message as an opaque argument.
    pub fn log_record(&self, level: Level, msg: &str) -> (r: Option<NativeCall>)
        requires
            self@.wf(),
            self@.enabled ==> nul_free(msg@),
        ensures
            (r is Some) == self@.enabled,
            (r matches Some(c) ==> (c matches NativeCall::Print { prio: p, tag: t, fmt: f, arg: a }
                && p as int == level.priority_spec().code_spec()
                && t@ == self@.current_tag()
                && f@ == "%s"@
                && a@ == msg@)),
    {
        if !self.is_enabled() {
            return None;
        }
        match level {
            Level::Error => self.e(msg),
            Level::Warn => self.w(msg),
            Level::Info => self.i(msg),
            Level::Debug => self.d(msg),
            Level::Trace => self.v(msg),
        }
    }

    /// The facade's `flush` operation: the native sink buffers nothing, so
    /// there is nothing to do.
    pub fn flush(&self) {
    }
}

} // verus!

//! Diagnostics relay to the host process.
//!
//! The host may register one process-wide callback taking a severity and a
//! message.  Registration is last-wins; while no callback is registered,
//! diagnostics are silently dropped — that is the default steady state.
//! The decisions are verified here; the foreign-facing half (the global
//! registration lock, the subscriber installation, the callback invocation)
//! lives outside the library.

use vstd::prelude::*;

verus! {

/// Severity of one diagnostic event, from most to least severe.
#[derive(Debug, Copy, Clone, PartialEq, Eq, Structural)]
pub enum LogLevel {
    Error,
    Warn,
    Info,
    Debug,
    Trace,
}

/// The integer severity handed to the host callback: 1 is the most severe,
/// 5 the least.
pub open spec fn spec_level_code(level: LogLevel) -> int {
    match level {
        LogLevel::Error => 1,
        LogLevel::Warn => 2,
        LogLevel::Info => 3,
        LogLevel::Debug => 4,
        LogLevel::Trace => 5,
    }
}

/// The subscriber that forwards diagnostic events to the host's registered
/// callback.
pub struct FfiSubscriber;

impl FfiSubscriber {
    /// Every event is enabled: filtering is the host's business.
    pub fn enabled(&self) -> (r: bool)
        ensures
            r,
    {
        true
    }

    /// The integer severity for one event's level.
    pub fn level_code(&self, level: LogLevel) -> (c: i32)
        ensures
            c == spec_level_code(level),
            1 <= c <= 5,
    {
        match level {
            LogLevel::Error => 1,
            LogLevel::Warn => 2,
            LogLevel::Info => 3,
            LogLevel::Debug => 4,
            LogLevel::Trace => 5,
        }
    }
}

/// The process-wide registration state for the host's logging callback: at
/// most one callback is active at a time.  A callback is an opaque foreign
/// token here.
pub struct CallbackRegistry {
    pub callback: Option<u64>,
}

impl CallbackRegistry {
    /// Whether an event recorded now would be delivered rather than
    /// silently dropped.
    pub open spec fn spec_delivers(self) -> bool {
        self.callback is Some
    }

    /// The steady state before any registration: no callback, diagnostics
    /// are dropped.
    pub fn new() -> (r: CallbackRegistry)
        ensures
            r.callback is None,
            !r.spec_delivers(),
    {
        CallbackRegistry { callback: None }
    }

    /// Registers the host callback.  The last registration wins, whatever
    /// was registered before.
    pub fn register(&mut self, cb: u64)
        ensures
            final(self).callback == Some(cb),
            final(self).spec_delivers(),
    {
        self.callback = Some(cb);
    }

    /// Whether an event recorded now would reach the host.
    pub fn delivers(&self) -> (r: bool)
        ensures
            r == self.spec_delivers(),
    {
        match self.callback {
            Some(_) => true,
            None => false,
        }
    }
}

/// The status code that callback registration hands back across the
/// boundary: 0 exactly when the callback was stored under the lock and the
/// subscriber was installed, -1 for any failure.
pub fn init_status(lock_ok: bool, subscriber_installed: bool) -> (c: i32)
    ensures
        c == 0 <==> (lock_ok && subscriber_installed),
        c == 0 || c == -1,
{
    if lock_ok && subscriber_installed {
        0
    } else {
        -1
    }
}

} // verus!

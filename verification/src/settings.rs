//! Process-wide engine settings: the one-shot initialization gate and the
//! closed ordinal set of log levels.
//!
//! The engine keeps process-wide mutable state — a one-time initialization,
//! an XMP namespace table, and a log level — with no synchronization of its
//! own. The initialization discipline is modeled here as an explicit
//! one-shot guard: the first caller performs the native initialization,
//! and every later call skips it.

use vstd::prelude::*;

verus! {

/// The engine's log levels, an ordered closed set.
#[derive(Clone, Copy, Debug, PartialEq, Eq, Hash, Structural)]
pub enum LogLevel {
    Debug,
    Info,
    Warn,
    Error,
    Mute,
}

/// The native code of a log level.
pub open spec fn spec_log_level_code(l: LogLevel) -> i32 {
    match l {
        LogLevel::Debug => 0,
        LogLevel::Info => 1,
        LogLevel::Warn => 2,
        LogLevel::Error => 3,
        LogLevel::Mute => 4,
    }
}

/// The log level named by a native code from the closed set.
pub open spec fn spec_log_level_of_code(code: i32) -> LogLevel {
    if code == 0 {
        LogLevel::Debug
    } else if code == 1 {
        LogLevel::Info
    } else if code == 2 {
        LogLevel::Warn
    } else if code == 3 {
        LogLevel::Error
    } else {
        LogLevel::Mute
    }
}

/// The native code to hand the engine when setting the log level.
pub fn log_level_to_native(l: LogLevel) -> (r: i32)
    ensures
        r == spec_log_level_code(l),
{
    match l {
        LogLevel::Debug => 0,
        LogLevel::Info => 1,
        LogLevel::Warn => 2,
        LogLevel::Error => 3,
        LogLevel::Mute => 4,
    }
}

/// Decision half of the log-level getter: classify the engine's code. The
/// engine only ever reports a code from the closed set.
pub fn log_level_from_native(code: i32) -> (r: LogLevel)
    requires
        0 <= code <= 4,
    ensures
        r == spec_log_level_of_code(code),
{
    if code == 0 {
        LogLevel::Debug
    } else if code == 1 {
        LogLevel::Info
    } else if code == 2 {
        LogLevel::Warn
    } else if code == 3 {
        LogLevel::Error
    } else {
        LogLevel::Mute
    }
}

/// Law: a log level sent to the engine and read back is unchanged.
pub proof fn lemma_log_level_round_trip(l: LogLevel)
    ensures
        spec_log_level_of_code(spec_log_level_code(l)) == l,
{
}

/// The one-shot gate guarding the engine's process-wide initialization.
pub struct InitGate {
    initialized: bool,
}

impl InitGate {
    /// Whether the one-time initialization has been performed.
    pub closed spec fn is_initialized(self) -> bool {
        self.initialized
    }

    /// A fresh gate: initialization has not happened yet.
    pub fn new() -> (g: InitGate)
        ensures
            !g.is_initialized(),
    {
        InitGate { initialized: false }
    }
}

/// Pass the one-shot initialization gate before using the engine. Returns
/// whether the native initialization call must be made now: true exactly on
/// the first passage, so the initialization is performed at most once.
pub fn test_setup(gate: &mut InitGate) -> (must_init: bool)
    ensures
        final(gate).is_initialized(),
        must_init == !old(gate).is_initialized(),
{
    let must_init = !gate.initialized;
    gate.initialized = true;
    must_init
}

} // verus!

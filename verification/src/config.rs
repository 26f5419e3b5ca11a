//! The engine's settings.

use vstd::prelude::*;

verus! {

/// Milliseconds between two ticks, unless configured otherwise.
pub const DEFAULT_TICK_PERIOD_MS: u64 = 100;

/// Length of the short window in ticks, unless configured otherwise: one
/// minute of default ticks.
pub const DEFAULT_SHORT_WINDOW_TICKS: u64 = 600;

/// Length of the long window in ticks, unless configured otherwise.
pub const DEFAULT_LONG_WINDOW_TICKS: u64 = 216_000;

/// Identifier of the End key, which stops the engine unless configured
/// otherwise.
pub const KEY_END: u64 = 8;

/// Settings of the engine, fixed when it starts.
#[derive(Clone, Copy, Debug, PartialEq, Eq, Structural)]
pub struct Config {
    /// Milliseconds between two ticks.
    pub tick_period_ms: u64,
    /// Ticks after which the short window closes.
    pub short_window_ticks: u64,
    /// Ticks after which the long window closes.
    pub long_window_ticks: u64,
    /// The key whose release stops the engine.
    pub shutdown_key: u64,
}

impl Config {
    /// The settings that `standard` returns.
    pub open spec fn standard_spec() -> Config {
        Config {
            tick_period_ms: DEFAULT_TICK_PERIOD_MS,
            short_window_ticks: DEFAULT_SHORT_WINDOW_TICKS,
            long_window_ticks: DEFAULT_LONG_WINDOW_TICKS,
            shutdown_key: KEY_END,
        }
    }

    /// The default settings.
    pub fn standard() -> (c: Config)
        ensures
            c == Config::standard_spec(),
        no_unwind
    {
        Config {
            tick_period_ms: DEFAULT_TICK_PERIOD_MS,
            short_window_ticks: DEFAULT_SHORT_WINDOW_TICKS,
            long_window_ticks: DEFAULT_LONG_WINDOW_TICKS,
            shutdown_key: KEY_END,
        }
    }
}

impl Default for Config {
    fn default() -> (c: Config)
        ensures
            c == Config::standard_spec(),
    {
        Config::standard()
    }
}

} // verus!

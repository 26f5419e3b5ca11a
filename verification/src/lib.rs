//! Action-rate telemetry: counters and derived per-minute rates over a short
//! and a long window, fed by input events and advanced by a periodic tick.

pub mod config;
pub mod event;
pub mod laws;
pub mod projection;
pub mod state;
pub mod window;

pub use config::Config;
pub use config::DEFAULT_LONG_WINDOW_TICKS;
pub use config::DEFAULT_SHORT_WINDOW_TICKS;
pub use config::DEFAULT_TICK_PERIOD_MS;
pub use config::KEY_END;
pub use event::EventClass;
pub use event::InputEvent;
pub use projection::projected_rate;
pub use projection::MS_PER_MINUTE;
pub use state::RateState;
pub use state::Snapshot;
pub use state::TickAction;
pub use window::WindowCounter;

//! The rate state: the short and the long window, the shutdown flag, and the
//! three ways to touch them: ingest an event, advance one tick, read a
//! snapshot. Each takes the state whole, so none is ever seen half applied.

use vstd::prelude::*;
use crate::config::Config;
use crate::event::EventClass;
use crate::event::InputEvent;
use crate::window::WindowCounter;
use crate::window::WindowView;

verus! {

/// What a reader of the telemetry gets.
#[derive(Clone, Copy, Debug, PartialEq, Eq, Structural)]
pub struct Snapshot {
    /// Rate of the short window.
    pub current_rate: u64,
    /// Rate of the long window.
    pub average_rate: u64,
    /// Whether shutdown was requested.
    pub shutdown: bool,
}

/// What the ticking loop does after a tick.
#[derive(Clone, Copy, Debug, PartialEq, Eq, Structural)]
pub enum TickAction {
    /// Sleep for this many milliseconds, then tick again.
    Wait(u64),
    /// Leave the loop: shutdown was requested.
    Stop,
}

/// The rate state as numbers and flags.
pub ghost struct RateView {
    /// The settings the state was made with.
    pub config: Config,
    /// Whether shutdown was requested.
    pub shutdown: bool,
    /// The short window.
    pub short: WindowView,
    /// The long window.
    pub long: WindowView,
    /// Whether the window placement was corrected for the monitor.
    pub screen_adjusted: bool,
}

impl RateView {
    /// The state at startup: nothing counted, no flag set.
    pub open spec fn initial(config: Config) -> RateView {
        RateView {
            config,
            shutdown: false,
            short: WindowView::empty(),
            long: WindowView::empty(),
            screen_adjusted: false,
        }
    }

    /// Neither window has run past its configured length.
    pub open spec fn within_bounds(self) -> bool {
        &&& self.short.elapsed <= self.config.short_window_ticks
        &&& self.long.elapsed <= self.config.long_window_ticks
    }

    /// The state after `event`. Once shutdown is requested nothing changes any
    /// more. Before that, the release of the shutdown key requests shutdown and
    /// counts nothing, any other release counts one action in both windows, and
    /// any other event changes nothing.
    pub open spec fn ingest(self, event: InputEvent) -> RateView {
        if self.shutdown {
            self
        } else {
            match event.class(self.config.shutdown_key) {
                EventClass::Ignored => self,
                EventClass::Shutdown => RateView { shutdown: true, ..self },
                EventClass::Action => RateView {
                    short: self.short.record(),
                    long: self.long.record(),
                    ..self
                },
            }
        }
    }

    /// The state after one tick. Once shutdown is requested nothing changes;
    /// before that each window advances against its own length.
    pub open spec fn tick(self) -> RateView {
        if self.shutdown {
            self
        } else {
            RateView {
                short: self.short.advance(
                    self.config.short_window_ticks as nat,
                    self.config.tick_period_ms as nat,
                ),
                long: self.long.advance(
                    self.config.long_window_ticks as nat,
                    self.config.tick_period_ms as nat,
                ),
                ..self
            }
        }
    }

    /// What the ticking loop does after a tick taken in this state.
    pub open spec fn tick_action(self) -> TickAction {
        if self.shutdown {
            TickAction::Stop
        } else {
            TickAction::Wait(self.config.tick_period_ms)
        }
    }

    /// Whether a snapshot shows this state.
    pub open spec fn shown_by(self, snap: Snapshot) -> bool {
        &&& snap.current_rate as nat == self.short.rate
        &&& snap.average_rate as nat == self.long.rate
        &&& snap.shutdown == self.shutdown
    }

    /// The state after the monitor was looked at: the placement counts as
    /// corrected from the first time the monitor's width is found to differ
    /// from the assumed one.
    pub open spec fn monitor_observed(self, width_differs: bool) -> RateView {
        RateView { screen_adjusted: self.screen_adjusted || width_differs, ..self }
    }
}

/// The shared record of counters and derived rates.
#[derive(Debug)]
pub struct RateState {
    config: Config,
    shutdown: bool,
    short: WindowCounter,
    long: WindowCounter,
    screen_adjusted: bool,
}

impl View for RateState {
    type V = RateView;

    closed spec fn view(&self) -> RateView {
        RateView {
            config: self.config,
            shutdown: self.shutdown,
            short: self.short@,
            long: self.long@,
            screen_adjusted: self.screen_adjusted,
        }
    }
}

impl RateState {
    /// What every state keeps to: no window has run past its length.
    #[verifier::type_invariant]
    closed spec fn holds_bounds(&self) -> bool {
        self@.within_bounds()
    }

    /// Every number of a state fits a machine counter.
    pub proof fn lemma_representable(&self)
        ensures
            self@.short.representable(),
            self@.long.representable(),
    {
        self.short.lemma_representable();
        self.long.lemma_representable();
    }

    /// Makes the state for the given settings, with nothing counted.
    pub fn new(config: Config) -> (s: RateState)
        ensures
            s@ == RateView::initial(config),
            s@.within_bounds(),
        no_unwind
    {
        RateState {
            config,
            shutdown: false,
            short: WindowCounter::new(),
            long: WindowCounter::new(),
            screen_adjusted: false,
        }
    }

    /// Applies one input event.
    pub fn ingest(&mut self, event: InputEvent)
        ensures
            final(self)@ == old(self)@.ingest(event),
            final(self)@.within_bounds(),
        no_unwind
    {
        proof {
            use_type_invariant(&*self);
        }
        if self.shutdown {
            return ;
        }
        match event.classify(self.config.shutdown_key) {
            EventClass::Ignored => {},
            EventClass::Shutdown => {
                self.shutdown = true;
            },
            EventClass::Action => {
                self.short.record();
                self.long.record();
            },
        }
    }

    /// Advances both windows by one tick and says what the ticking loop does
    /// next.
    pub fn tick(&mut self) -> (action: TickAction)
        ensures
            final(self)@ == old(self)@.tick(),
            action == old(self)@.tick_action(),
            final(self)@.within_bounds(),
        no_unwind
    {
        proof {
            use_type_invariant(&*self);
        }
        if self.shutdown {
            return TickAction::Stop;
        }
        self.short.advance(self.config.short_window_ticks, self.config.tick_period_ms);
        self.long.advance(self.config.long_window_ticks, self.config.tick_period_ms);
        TickAction::Wait(self.config.tick_period_ms)
    }

    /// Reads the rates and the shutdown flag.
    pub fn snapshot(&self) -> (snap: Snapshot)
        ensures
            self@.shown_by(snap),
        no_unwind
    {
        Snapshot {
            current_rate: self.short.rate(),
            average_rate: self.long.rate(),
            shutdown: self.shutdown,
        }
    }

    /// Records that the monitor was looked at, and says whether the window has
    /// to be moved: it has the first time the monitor's width differs from
    /// the assumed one.
    pub fn observe_monitor(&mut self, width_differs: bool) -> (reposition: bool)
        ensures
            final(self)@ == old(self)@.monitor_observed(width_differs),
            reposition == (!old(self)@.screen_adjusted && width_differs),
            final(self)@.within_bounds(),
        no_unwind
    {
        proof {
            use_type_invariant(&*self);
        }
        if !self.screen_adjusted && width_differs {
            self.screen_adjusted = true;
            true
        } else {
            false
        }
    }

    /// The settings the state was made with.
    pub fn config(&self) -> (c: Config)
        ensures
            c == self@.config,
        no_unwind
    {
        self.config
    }

    /// Whether shutdown was requested.
    pub fn is_shutdown(&self) -> (b: bool)
        ensures
            b == self@.shutdown,
        no_unwind
    {
        self.shutdown
    }

    /// Actions counted in the short window.
    pub fn action_count(&self) -> (n: u64)
        ensures
            n as nat == self@.short.count,
        no_unwind
    {
        self.short.count()
    }

    /// Ticks elapsed in the short window: never more than its length.
    pub fn elapsed_ticks(&self) -> (n: u64)
        ensures
            n as nat == self@.short.elapsed,
            n <= self@.config.short_window_ticks,
            self@.within_bounds(),
        no_unwind
    {
        proof {
            use_type_invariant(self);
        }
        self.short.elapsed()
    }

    /// Rate of the short window.
    pub fn current_rate(&self) -> (n: u64)
        ensures
            n as nat == self@.short.rate,
        no_unwind
    {
        self.short.rate()
    }

    /// Actions counted in the long window.
    pub fn avg_action_count(&self) -> (n: u64)
        ensures
            n as nat == self@.long.count,
        no_unwind
    {
        self.long.count()
    }

    /// Ticks elapsed in the long window: never more than its length.
    pub fn avg_elapsed_ticks(&self) -> (n: u64)
        ensures
            n as nat == self@.long.elapsed,
            n <= self@.config.long_window_ticks,
            self@.within_bounds(),
        no_unwind
    {
        proof {
            use_type_invariant(self);
        }
        self.long.elapsed()
    }

    /// Rate of the long window.
    pub fn average_rate(&self) -> (n: u64)
        ensures
            n as nat == self@.long.rate,
        no_unwind
    {
        self.long.rate()
    }

    /// Whether the window placement was corrected for the monitor.
    pub fn screen_adjusted(&self) -> (b: bool)
        ensures
            b == self@.screen_adjusted,
        no_unwind
    {
        self.screen_adjusted
    }
}

impl Default for RateState {
    fn default() -> (s: RateState)
        ensures
            s@ == RateView::initial(Config::standard_spec()),
    {
        RateState::new(Config::standard())
    }
}

} // verus!

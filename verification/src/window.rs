//! One measuring window: a count of actions, the ticks elapsed since the
//! window opened, and the rate derived from the two.

use vstd::prelude::*;
use crate::projection::counter_max;
use crate::projection::projected_rate;
use crate::projection::rate_per_minute;

verus! {

/// What a window holds, as numbers.
pub ghost struct WindowView {
    /// Actions counted since the window opened.
    pub count: nat,
    /// Ticks elapsed since the window opened.
    pub elapsed: nat,
    /// The rate derived at the last tick.
    pub rate: nat,
}

impl WindowView {
    /// A window that has just opened and has not reported a rate yet.
    pub open spec fn empty() -> WindowView {
        WindowView { count: 0, elapsed: 0, rate: 0 }
    }

    /// Every number fits a machine counter.
    pub open spec fn representable(self) -> bool {
        &&& self.count <= counter_max()
        &&& self.elapsed <= counter_max()
        &&& self.rate <= counter_max()
    }

    /// The window after one more action: the count grows by one and stops at
    /// `counter_max()`.
    pub open spec fn record(self) -> WindowView {
        WindowView {
            count: if self.count < counter_max() {
                self.count + 1
            } else {
                self.count
            },
            ..self
        }
    }

    /// The window after one tick, for a window of `bound` ticks of `period_ms`
    /// milliseconds. A window that has run its `bound` ticks closes: its rate
    /// becomes the count as it stands, and count and ticks start again from 0.
    /// Any other window runs one tick longer and its rate is projected from the
    /// count and the time elapsed.
    pub open spec fn advance(self, bound: nat, period_ms: nat) -> WindowView {
        if self.elapsed == bound {
            WindowView { count: 0, elapsed: 0, rate: self.count }
        } else {
            WindowView {
                count: self.count,
                elapsed: self.elapsed + 1,
                rate: rate_per_minute(self.count, self.elapsed + 1, period_ms),
            }
        }
    }
}

/// The counters of one window.
#[derive(Debug)]
pub struct WindowCounter {
    count: u64,
    elapsed: u64,
    rate: u64,
}

impl View for WindowCounter {
    type V = WindowView;

    closed spec fn view(&self) -> WindowView {
        WindowView { count: self.count as nat, elapsed: self.elapsed as nat, rate: self.rate as nat }
    }
}

impl WindowCounter {
    /// Opens a window with nothing counted.
    pub fn new() -> (w: WindowCounter)
        ensures
            w@ == WindowView::empty(),
        no_unwind
    {
        WindowCounter { count: 0, elapsed: 0, rate: 0 }
    }

    /// The numbers of a counter always fit the machine.
    pub proof fn lemma_representable(&self)
        ensures
            self@.representable(),
    {
    }

    /// Counts one action.
    pub fn record(&mut self)
        ensures
            final(self)@ == old(self)@.record(),
        no_unwind
    {
        if self.count < u64::MAX {
            self.count = self.count + 1;
        }
    }

    /// Advances the window by one tick: closes it where it has run `bound`
    /// ticks, else projects its rate.
    pub fn advance(&mut self, bound: u64, period_ms: u64)
        requires
            old(self)@.elapsed <= bound,
        ensures
            final(self)@ == old(self)@.advance(bound as nat, period_ms as nat),
            final(self)@.elapsed <= bound,
        no_unwind
    {
        if self.elapsed == bound {
            self.rate = self.count;
            self.count = 0;
            self.elapsed = 0;
        } else {
            self.elapsed = self.elapsed + 1;
            self.rate = projected_rate(self.count, self.elapsed, period_ms);
        }
    }

    /// Actions counted since the window opened.
    pub fn count(&self) -> (n: u64)
        ensures
            n as nat == self@.count,
        no_unwind
    {
        self.count
    }

    /// Ticks elapsed since the window opened.
    pub fn elapsed(&self) -> (n: u64)
        ensures
            n as nat == self@.elapsed,
        no_unwind
    {
        self.elapsed
    }

    /// The rate derived at the last tick.
    pub fn rate(&self) -> (n: u64)
        ensures
            n as nat == self@.rate,
        no_unwind
    {
        self.rate
    }
}

} // verus!

//! What holds of the rate state over whole runs: any sequence of events and
//! ticks, in any order.

use vstd::prelude::*;
use vstd::arithmetic::div_mod::lemma_fundamental_div_mod;
use vstd::arithmetic::div_mod::lemma_fundamental_div_mod_converse;
use crate::event::EventClass;
use crate::event::InputEvent;
use crate::projection::counter_max;
use crate::projection::lemma_rate_is_rounded_quotient;
use crate::projection::lemma_rate_of_no_actions;
use crate::projection::round_half_up;
use crate::projection::MS_PER_MINUTE;
use crate::projection::rate_per_minute;
use crate::state::RateView;
use crate::state::Snapshot;
use crate::window::WindowView;

verus! {

/// One thing that happens to the state: an event arrives, or the ticker ticks.
pub ghost enum Step {
    /// An input event is ingested.
    Event(InputEvent),
    /// One tick passes.
    Tick,
}

/// The state after one step.
pub open spec fn step(v: RateView, s: Step) -> RateView {
    match s {
        Step::Event(event) => v.ingest(event),
        Step::Tick => v.tick(),
    }
}

/// The state after the steps of `steps`, first to last. Each step is applied
/// whole, so a sequence stands for any interleaving of the ingesting and the
/// ticking side.
pub open spec fn run(v: RateView, steps: Seq<Step>) -> RateView
    decreases steps.len(),
{
    if steps.len() == 0 {
        v
    } else {
        step(run(v, steps.drop_last()), steps.last())
    }
}

/// How many ticks `steps` holds.
pub open spec fn ticks_in(steps: Seq<Step>) -> nat
    decreases steps.len(),
{
    if steps.len() == 0 {
        0
    } else {
        ticks_in(steps.drop_last()) + if steps.last() is Tick {
            1nat
        } else {
            0nat
        }
    }
}

/// Whether a step is an action: the release of a key other than
/// `shutdown_key`, or of a button.
pub open spec fn is_action(s: Step, shutdown_key: u64) -> bool {
    match s {
        Step::Event(event) => event.class(shutdown_key) == EventClass::Action,
        Step::Tick => false,
    }
}

/// How many actions `steps` holds.
pub open spec fn actions_in(steps: Seq<Step>, shutdown_key: u64) -> nat
    decreases steps.len(),
{
    if steps.len() == 0 {
        0
    } else {
        actions_in(steps.drop_last(), shutdown_key) + if is_action(steps.last(), shutdown_key) {
            1nat
        } else {
            0nat
        }
    }
}

/// No step of `steps` releases `shutdown_key`.
pub open spec fn never_releases(steps: Seq<Step>, shutdown_key: u64) -> bool {
    forall|i: int|
        0 <= i < steps.len() ==> #[trigger] steps[i] != Step::Event(
            InputEvent::KeyRelease(shutdown_key),
        )
}

/// Every step of `steps` is an event that is no release: no tick, no action,
/// no shutdown request.
pub open spec fn only_ignored_events(steps: Seq<Step>) -> bool {
    forall|i: int|
        0 <= i < steps.len() ==> match #[trigger] steps[i] {
            Step::Event(event) => !event.is_release(),
            Step::Tick => false,
        }
}

/// Steps that never release the shutdown key do not release it at their last
/// step, nor before it.
proof fn lemma_never_releases_before_last(steps: Seq<Step>, shutdown_key: u64)
    requires
        steps.len() > 0,
        never_releases(steps, shutdown_key),
    ensures
        never_releases(steps.drop_last(), shutdown_key),
        steps.last() != Step::Event(InputEvent::KeyRelease(shutdown_key)),
{
    let before = steps.drop_last();
    assert forall|i: int| 0 <= i < before.len() implies #[trigger] before[i] != Step::Event(
        InputEvent::KeyRelease(shutdown_key),
    ) by {
        assert(before[i] == steps[i]);
    }
    assert(steps.last() == steps[steps.len() - 1]);
}

/// `count` raised by `more`, held to `counter_max()`.
pub open spec fn saturating_sum(count: nat, more: nat) -> nat {
    if count + more <= counter_max() {
        count + more
    } else {
        counter_max()
    }
}

/// Whatever events and ticks arrive, in whatever order, neither window ever
/// runs past its configured length, neither holds more actions than it had
/// and the run brought, and the settings stay as they were.
pub proof fn law_bounds_hold_in_every_run(v: RateView, steps: Seq<Step>)
    requires
        v.within_bounds(),
    ensures
        run(v, steps).within_bounds(),
        run(v, steps).short.count <= v.short.count + actions_in(steps, v.config.shutdown_key),
        run(v, steps).long.count <= v.long.count + actions_in(steps, v.config.shutdown_key),
        run(v, steps).config == v.config,
        run(v, steps).screen_adjusted == v.screen_adjusted,
    decreases steps.len(),
{
    if steps.len() > 0 {
        law_bounds_hold_in_every_run(v, steps.drop_last());
    }
}

/// Shutdown is final: once it is requested, no event and no tick changes
/// anything.
pub proof fn law_shutdown_is_final(v: RateView, steps: Seq<Step>)
    requires
        v.shutdown,
    ensures
        run(v, steps) == v,
    decreases steps.len(),
{
    if steps.len() > 0 {
        law_shutdown_is_final(v, steps.drop_last());
    }
}

/// Shutdown never goes back: a run that starts or passes through a requested
/// shutdown ends with it requested.
pub proof fn law_shutdown_is_monotonic(v: RateView, steps: Seq<Step>, k: int)
    requires
        0 <= k <= steps.len(),
        run(v, steps.subrange(0, k)).shutdown,
    ensures
        run(v, steps).shutdown,
    decreases steps.len() - k,
{
    if k == steps.len() {
        assert(steps.subrange(0, k) =~= steps);
    } else {
        let longer = steps.subrange(0, k + 1);
        assert(longer.drop_last() =~= steps.subrange(0, k));
        law_shutdown_is_monotonic(v, steps, k + 1);
    }
}

/// The release of the shutdown key requests shutdown and changes nothing
/// else, whatever the state was.
pub proof fn law_shutdown_key_counts_nothing(v: RateView)
    ensures
        v.ingest(InputEvent::KeyRelease(v.config.shutdown_key)) == (RateView {
            shutdown: true,
            ..v
        }),
{
}

/// While no shutdown is requested, a window that does not reach its length
/// within the run has run as many ticks more as the run holds, and has counted
/// as many actions more as the run holds.
pub proof fn law_open_window_counts_every_action(v: RateView, steps: Seq<Step>)
    requires
        !v.shutdown,
        v.short.representable(),
        v.long.representable(),
        never_releases(steps, v.config.shutdown_key),
    ensures
        !run(v, steps).shutdown,
        run(v, steps).config == v.config,
        v.short.elapsed + ticks_in(steps) <= v.config.short_window_ticks ==> {
            &&& run(v, steps).short.elapsed == v.short.elapsed + ticks_in(steps)
            &&& run(v, steps).short.count == saturating_sum(
                v.short.count,
                actions_in(steps, v.config.shutdown_key),
            )
        },
        v.long.elapsed + ticks_in(steps) <= v.config.long_window_ticks ==> {
            &&& run(v, steps).long.elapsed == v.long.elapsed + ticks_in(steps)
            &&& run(v, steps).long.count == saturating_sum(
                v.long.count,
                actions_in(steps, v.config.shutdown_key),
            )
        },
    decreases steps.len(),
{
    if steps.len() > 0 {
        let before = steps.drop_last();
        lemma_never_releases_before_last(steps, v.config.shutdown_key);
        law_open_window_counts_every_action(v, before);
    }
}

/// Where a window of `bound` ticks stands after `ticks` ticks from its
/// opening: it runs `bound` ticks and closes at the next, so it goes round a
/// cycle of `bound + 1`.
pub open spec fn place_in_cycle(ticks: nat, bound: nat) -> int {
    (ticks as int) % (bound as int + 1)
}

/// A tick moves a window's tick count one place round its cycle.
proof fn lemma_advance_cycles(w: WindowView, bound: nat, period_ms: nat, total: nat)
    requires
        w.elapsed == place_in_cycle(total, bound),
    ensures
        w.advance(bound, period_ms).elapsed == place_in_cycle(total + 1, bound),
{
    let m = (bound + 1) as int;
    let x = total as int;
    let q = x / m;
    let e = x % m;
    lemma_fundamental_div_mod(x, m);
    assert(x == q * m + e) by (nonlinear_arith)
        requires
            x == m * q + e,
    ;
    if e == bound {
        assert(x + 1 == (q + 1) * m + 0) by (nonlinear_arith)
            requires
                x == q * m + e,
                e == m - 1,
        ;
        lemma_fundamental_div_mod_converse(x + 1, m, q + 1, 0);
    } else {
        assert(0 <= e < m) by (nonlinear_arith)
            requires
                e == x % m,
                m > 0,
        ;
        assert(x + 1 == q * m + (e + 1));
        lemma_fundamental_div_mod_converse(x + 1, m, q, e + 1);
    }
}

/// No reset is missed and none comes twice: while no shutdown is requested,
/// each window's tick count goes round a cycle of its length plus one, one
/// place for each tick, whatever events arrive in between.
pub proof fn law_windows_close_once_per_cycle(v: RateView, steps: Seq<Step>)
    requires
        !v.shutdown,
        v.short.elapsed == 0,
        v.long.elapsed == 0,
        never_releases(steps, v.config.shutdown_key),
    ensures
        !run(v, steps).shutdown,
        run(v, steps).config == v.config,
        run(v, steps).short.elapsed == place_in_cycle(
            ticks_in(steps),
            v.config.short_window_ticks as nat,
        ),
        run(v, steps).long.elapsed == place_in_cycle(
            ticks_in(steps),
            v.config.long_window_ticks as nat,
        ),
    decreases steps.len(),
{
    if steps.len() > 0 {
        let before = steps.drop_last();
        lemma_never_releases_before_last(steps, v.config.shutdown_key);
        law_windows_close_once_per_cycle(v, before);
        let r = run(v, before);
        if steps.last() is Tick {
            lemma_advance_cycles(
                r.short,
                v.config.short_window_ticks as nat,
                v.config.tick_period_ms as nat,
                ticks_in(before),
            );
            lemma_advance_cycles(
                r.long,
                v.config.long_window_ticks as nat,
                v.config.tick_period_ms as nat,
                ticks_in(before),
            );
        }
    } else {
        assert(place_in_cycle(0, v.config.short_window_ticks as nat) == 0);
        assert(place_in_cycle(0, v.config.long_window_ticks as nat) == 0);
    }
}

/// A short window that has just opened, sees `n` actions while it runs its
/// full length, and then closes at the next tick, reports exactly `n`, and
/// starts again from 0. The actions and the ticks may come in any order.
pub proof fn law_closed_short_window_reports_its_count(v: RateView, steps: Seq<Step>)
    requires
        !v.shutdown,
        v.short.count == 0,
        v.short.elapsed == 0,
        v.short.representable(),
        v.long.representable(),
        never_releases(steps, v.config.shutdown_key),
        ticks_in(steps) == v.config.short_window_ticks,
        actions_in(steps, v.config.shutdown_key) <= counter_max(),
    ensures
        run(v, steps).short.elapsed == v.config.short_window_ticks,
        run(v, steps).short.count == actions_in(steps, v.config.shutdown_key),
        run(v, steps).tick().short == (WindowView {
            count: 0,
            elapsed: 0,
            rate: actions_in(steps, v.config.shutdown_key),
        }),
{
    law_open_window_counts_every_action(v, steps);
}

/// The same of the long window, against its own length.
pub proof fn law_closed_long_window_reports_its_count(v: RateView, steps: Seq<Step>)
    requires
        !v.shutdown,
        v.long.count == 0,
        v.long.elapsed == 0,
        v.short.representable(),
        v.long.representable(),
        never_releases(steps, v.config.shutdown_key),
        ticks_in(steps) == v.config.long_window_ticks,
        actions_in(steps, v.config.shutdown_key) <= counter_max(),
    ensures
        run(v, steps).long.elapsed == v.config.long_window_ticks,
        run(v, steps).long.count == actions_in(steps, v.config.shutdown_key),
        run(v, steps).tick().long == (WindowView {
            count: 0,
            elapsed: 0,
            rate: actions_in(steps, v.config.shutdown_key),
        }),
{
    law_open_window_counts_every_action(v, steps);
}

/// A tick inside an open window projects the rate from the count and the
/// ticks elapsed, this tick included: the count divided by the minutes
/// elapsed, rounded to the nearest integer, wherever that fits a counter, as
/// it does where the count times the milliseconds of a minute fits. With
/// nothing counted the rate is 0.
pub proof fn law_tick_inside_window_projects(v: RateView)
    requires
        !v.shutdown,
        v.short.elapsed != v.config.short_window_ticks,
    ensures
        v.tick().short.count == v.short.count,
        v.tick().short.elapsed == v.short.elapsed + 1,
        v.tick().short.rate == rate_per_minute(
            v.short.count,
            v.short.elapsed + 1,
            v.config.tick_period_ms as nat,
        ),
        round_half_up(
            v.short.count * (MS_PER_MINUTE as nat),
            (v.short.elapsed + 1) * (v.config.tick_period_ms as nat),
        ) <= counter_max() ==> v.tick().short.rate == round_half_up(
            v.short.count * (MS_PER_MINUTE as nat),
            (v.short.elapsed + 1) * (v.config.tick_period_ms as nat),
        ),
        v.short.count * MS_PER_MINUTE <= counter_max() ==> v.tick().short.rate == round_half_up(
            v.short.count * (MS_PER_MINUTE as nat),
            (v.short.elapsed + 1) * (v.config.tick_period_ms as nat),
        ),
        v.short.count == 0 ==> v.tick().short.rate == 0,
{
    lemma_rate_of_no_actions(v.short.elapsed + 1, v.config.tick_period_ms as nat);
    if v.short.count * MS_PER_MINUTE <= counter_max() {
        lemma_rate_is_rounded_quotient(
            v.short.count,
            v.short.elapsed + 1,
            v.config.tick_period_ms as nat,
        );
    }
}

/// The same of the long window.
pub proof fn law_tick_inside_long_window_projects(v: RateView)
    requires
        !v.shutdown,
        v.long.elapsed != v.config.long_window_ticks,
    ensures
        v.tick().long.count == v.long.count,
        v.tick().long.elapsed == v.long.elapsed + 1,
        v.tick().long.rate == rate_per_minute(
            v.long.count,
            v.long.elapsed + 1,
            v.config.tick_period_ms as nat,
        ),
        round_half_up(
            v.long.count * (MS_PER_MINUTE as nat),
            (v.long.elapsed + 1) * (v.config.tick_period_ms as nat),
        ) <= counter_max() ==> v.tick().long.rate == round_half_up(
            v.long.count * (MS_PER_MINUTE as nat),
            (v.long.elapsed + 1) * (v.config.tick_period_ms as nat),
        ),
        v.long.count * MS_PER_MINUTE <= counter_max() ==> v.tick().long.rate == round_half_up(
            v.long.count * (MS_PER_MINUTE as nat),
            (v.long.elapsed + 1) * (v.config.tick_period_ms as nat),
        ),
        v.long.count == 0 ==> v.tick().long.rate == 0,
{
    lemma_rate_of_no_actions(v.long.elapsed + 1, v.config.tick_period_ms as nat);
    if v.long.count * MS_PER_MINUTE <= counter_max() {
        lemma_rate_is_rounded_quotient(
            v.long.count,
            v.long.elapsed + 1,
            v.config.tick_period_ms as nat,
        );
    }
}

/// Two reads of one state agree.
pub proof fn law_reads_of_one_state_agree(v: RateView, first: Snapshot, second: Snapshot)
    requires
        v.shown_by(first),
        v.shown_by(second),
    ensures
        first == second,
{
}

/// Events that are no releases leave the state as it was, so a read after
/// them shows what a read before them showed.
pub proof fn law_ignored_events_change_nothing(v: RateView, steps: Seq<Step>)
    requires
        only_ignored_events(steps),
    ensures
        run(v, steps) == v,
    decreases steps.len(),
{
    if steps.len() > 0 {
        let before = steps.drop_last();
        assert(only_ignored_events(before)) by {
            assert forall|i: int| 0 <= i < before.len() implies match #[trigger] before[i] {
                Step::Event(event) => !event.is_release(),
                Step::Tick => false,
            } by {
                assert(before[i] == steps[i]);
            }
        }
        law_ignored_events_change_nothing(v, before);
        assert(steps.last() == steps[steps.len() - 1]);
    }
}

} // verus!

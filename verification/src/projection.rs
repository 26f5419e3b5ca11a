//! Projection of a per-minute rate from a count and an elapsed time, in exact
//! integer arithmetic.

use vstd::prelude::*;
use vstd::arithmetic::div_mod::lemma_fundamental_div_mod;
use vstd::arithmetic::div_mod::lemma_fundamental_div_mod_converse;

verus! {

/// Milliseconds in one minute.
pub const MS_PER_MINUTE: u64 = 60_000;

/// The largest value a counter or a rate can hold.
pub open spec fn counter_max() -> nat {
    u64::MAX as nat
}

/// The quotient `n / d` rounded to the nearest integer, a tie going up; 0 where
/// `d` is 0.
pub open spec fn round_half_up(n: nat, d: nat) -> nat {
    if d == 0 {
        0
    } else {
        ((2 * n + d) / (2 * d)) as nat
    }
}

/// The rate per minute that `actions` in `ticks` ticks of `period_ms`
/// milliseconds amount to: `actions` divided by the elapsed minutes, rounded
/// to the nearest integer and held to `counter_max()`. No time elapsed gives 0.
pub open spec fn rate_per_minute(actions: nat, ticks: nat, period_ms: nat) -> nat {
    let elapsed_ms = ticks * period_ms;
    let rounded = round_half_up(actions * (MS_PER_MINUTE as nat), elapsed_ms);
    if rounded <= counter_max() {
        rounded
    } else {
        counter_max()
    }
}

/// `round_half_up` is the floor of the quotient, plus one where twice the
/// remainder reaches the divisor.
pub proof fn lemma_round_half_up_by_remainder(n: nat, d: nat)
    requires
        d > 0,
    ensures
        round_half_up(n, d) == (n as int) / (d as int) + (if 2 * ((n as int) % (d as int)) >= d {
            1int
        } else {
            0int
        }),
{
    let ni = n as int;
    let di = d as int;
    let q = ni / di;
    let r = ni % di;
    lemma_fundamental_div_mod(ni, di);
    assert(0 <= r < di) by (nonlinear_arith)
        requires
            di > 0,
            r == ni % di,
    ;
    if 2 * r >= di {
        assert(2 * ni + di == (q + 1) * (2 * di) + (2 * r - di)) by (nonlinear_arith)
            requires
                ni == di * q + r,
        ;
        lemma_fundamental_div_mod_converse(2 * ni + di, 2 * di, q + 1, 2 * r - di);
    } else {
        assert(2 * ni + di == q * (2 * di) + (2 * r + di)) by (nonlinear_arith)
            requires
                ni == di * q + r,
        ;
        lemma_fundamental_div_mod_converse(2 * ni + di, 2 * di, q, 2 * r + di);
    }
}

/// `round_half_up(n, d)` is the integer nearest to `n / d`: it lies within one
/// half of the quotient, and of two integers equally near it is the larger.
pub proof fn lemma_round_half_up_is_nearest(n: nat, d: nat)
    requires
        d > 0,
    ensures
        2 * round_half_up(n, d) * d <= 2 * n + d,
        2 * n + d < 2 * round_half_up(n, d) * d + 2 * d,
{
    let x = (2 * n + d) as int;
    let m = (2 * d) as int;
    let k = x / m;
    lemma_fundamental_div_mod(x, m);
    assert(0 <= x % m < m) by (nonlinear_arith)
        requires
            m > 0,
    ;
    assert(k >= 0) by (nonlinear_arith)
        requires
            x == m * k + x % m,
            x % m < m,
            x >= 0,
            m > 0,
    ;
    assert(2 * k * d == m * k) by (nonlinear_arith)
        requires
            m == 2 * d,
    ;
}

/// Rounding a quotient by a positive divisor never gives more than the
/// dividend.
pub proof fn lemma_round_half_up_at_most_dividend(n: nat, d: nat)
    requires
        d > 0,
    ensures
        round_half_up(n, d) <= n,
{
    lemma_round_half_up_is_nearest(n, d);
    let r = round_half_up(n, d);
    assert(r <= n) by (nonlinear_arith)
        requires
            2 * r * d <= 2 * n + d,
            d > 0,
    ;
}

/// A dividend that is a multiple of the divisor is rounded to the exact
/// quotient.
pub proof fn lemma_round_half_up_exact(q: nat, d: nat)
    requires
        d > 0,
    ensures
        round_half_up(q * d, d) == q,
{
    assert(2 * (q * d) + d == q * (2 * d) + d) by (nonlinear_arith);
    lemma_fundamental_div_mod_converse((2 * (q * d) + d) as int, (2 * d) as int, q as int, d as int);
}

/// Where the count times the milliseconds of a minute fits a counter, the
/// projected rate is the rounded quotient itself: the limit of a counter
/// plays no part.
pub proof fn lemma_rate_is_rounded_quotient(actions: nat, ticks: nat, period_ms: nat)
    requires
        actions * MS_PER_MINUTE <= counter_max(),
    ensures
        rate_per_minute(actions, ticks, period_ms) == round_half_up(
            actions * (MS_PER_MINUTE as nat),
            ticks * period_ms,
        ),
{
    if ticks * period_ms > 0 {
        lemma_round_half_up_at_most_dividend(actions * (MS_PER_MINUTE as nat), ticks * period_ms);
    }
}

/// With no action counted the projected rate is 0, whatever time has elapsed.
pub proof fn lemma_rate_of_no_actions(ticks: nat, period_ms: nat)
    ensures
        rate_per_minute(0, ticks, period_ms) == 0,
{
    let d = ticks * period_ms;
    if d > 0 {
        lemma_round_half_up_exact(0, d);
        assert(0 * d == 0) by (nonlinear_arith);
    }
}

/// With no time elapsed the projected rate is 0, whatever was counted.
pub proof fn lemma_rate_of_no_time(actions: nat, ticks: nat, period_ms: nat)
    requires
        ticks == 0 || period_ms == 0,
    ensures
        rate_per_minute(actions, ticks, period_ms) == 0,
{
    assert(ticks * period_ms == 0) by (nonlinear_arith)
        requires
            ticks == 0 || period_ms == 0,
    ;
}

/// After exactly one minute the projected rate is the count itself.
pub proof fn lemma_rate_after_one_minute(actions: nat, ticks: nat, period_ms: nat)
    requires
        ticks * period_ms == MS_PER_MINUTE,
        actions <= counter_max(),
    ensures
        rate_per_minute(actions, ticks, period_ms) == actions,
{
    lemma_round_half_up_exact(actions, MS_PER_MINUTE as nat);
}

/// Projects the rate per minute from `actions` counted over `ticks` ticks of
/// `period_ms` milliseconds each.
pub fn projected_rate(actions: u64, ticks: u64, period_ms: u64) -> (rate: u64)
    ensures
        rate as nat == rate_per_minute(actions as nat, ticks as nat, period_ms as nat),
    no_unwind
{
    proof {
        assert(0 <= (ticks as int) * (period_ms as int) <= 0xffff_ffff_ffff_ffff
            * 0xffff_ffff_ffff_ffff) by (nonlinear_arith)
            requires
                0 <= ticks <= 0xffff_ffff_ffff_ffff,
                0 <= period_ms <= 0xffff_ffff_ffff_ffff,
        ;
        assert(0 <= (actions as int) * 60_000 <= 0xffff_ffff_ffff_ffff * 60_000)
            by (nonlinear_arith)
            requires
                0 <= actions <= 0xffff_ffff_ffff_ffff,
        ;
    }
    let elapsed_ms: u128 = (ticks as u128) * (period_ms as u128);
    if elapsed_ms == 0 {
        return 0;
    }
    let scaled: u128 = (actions as u128) * (MS_PER_MINUTE as u128);
    let whole: u128 = scaled / elapsed_ms;
    let rest: u128 = scaled % elapsed_ms;
    proof {
        lemma_round_half_up_by_remainder(scaled as nat, elapsed_ms as nat);
        assert(whole <= scaled) by (nonlinear_arith)
            requires
                whole == (scaled as int) / (elapsed_ms as int),
                elapsed_ms > 0,
                scaled >= 0,
        ;
    }
    let rounded: u128 = if rest >= elapsed_ms - rest {
        whole + 1
    } else {
        whole
    };
    if rounded > u64::MAX as u128 {
        u64::MAX
    } else {
        rounded as u64
    }
}

} // verus!

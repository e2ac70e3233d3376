//! The wait before each restart attempt.
//!
//! The first attempt waits the base delay. Attempt `k` waits the base delay
//! times the multiplier to the power of `k - 1`, in whole milliseconds, and no
//! attempt waits longer than the cap. The multiplier is counted in
//! thousandths, and the product is exact: it is cut to whole milliseconds
//! once, at the end.

use vstd::prelude::*;
use crate::big::Big;
use crate::settings::McpSettings;

verus! {

/// `b` to the power of `e`.
pub open spec fn power(b: nat, e: nat) -> nat
    decreases e,
{
    if e == 0 {
        1
    } else {
        b * power(b, (e - 1) as nat)
    }
}

/// The base delay times the multiplier to the power of `e`, in whole
/// milliseconds, for a multiplier of `permille` thousandths.
pub open spec fn scaled(base: nat, permille: nat, e: nat) -> nat {
    base * power(permille, e) / power(1000, e)
}

/// The wait before attempt `k`, before the cap applies: the base delay for
/// the first attempt, and for each later one the base delay times the
/// multiplier to the power of `k - 1`.
pub open spec fn uncapped_delay(base: nat, permille: nat, k: nat) -> nat {
    if k <= 1 {
        base
    } else {
        scaled(base, permille, (k - 1) as nat)
    }
}

/// The wait before attempt `k` under `settings`, in milliseconds.
pub open spec fn backoff_delay(k: nat, settings: McpSettings) -> nat {
    let raw = uncapped_delay(
        settings.base_restart_delay_ms as nat,
        settings.backoff_multiplier_permille as nat,
        k,
    );
    if raw <= settings.max_restart_delay_ms {
        raw
    } else {
        settings.max_restart_delay_ms as nat
    }
}

/// A power of a positive number is positive.
pub proof fn lemma_power_positive(b: nat, e: nat)
    requires
        b >= 1,
    ensures
        power(b, e) >= 1,
    decreases e,
{
    if e > 0 {
        lemma_power_positive(b, (e - 1) as nat);
        assert(b * power(b, (e - 1) as nat) >= 1) by (nonlinear_arith)
            requires
                b >= 1,
                power(b, (e - 1) as nat) >= 1,
        ;
    }
}

/// A quotient is at least `c` where the dividend is at least `c` times the
/// divisor.
proof fn lemma_quotient_at_least(p: nat, d: nat, c: nat)
    by (nonlinear_arith)
    requires
        d > 0,
        d * c <= p,
    ensures
        p / d >= c,
{
}

/// A quotient is below `c` where the dividend is below `c` times the
/// divisor.
proof fn lemma_quotient_below(p: nat, d: nat, c: nat)
    by (nonlinear_arith)
    requires
        d > 0,
        p < d * c,
    ensures
        p / d < c,
{
}

/// What a quotient times its divisor is: at most the dividend.
proof fn lemma_quotient_times_divisor(p: nat, d: nat)
    by (nonlinear_arith)
    requires
        d > 0,
    ensures
        d * (p / d) <= p,
        p < d * (p / d + 1),
{
}

/// One more factor of a multiplier of at least one never shortens the wait.
proof fn lemma_scaled_step_up(base: nat, permille: nat, e: nat)
    requires
        permille >= 1000,
    ensures
        scaled(base, permille, e) <= scaled(base, permille, e + 1),
{
    let p = base * power(permille, e);
    let d = power(1000, e);
    lemma_power_positive(1000, e);
    let q = p / d;
    lemma_quotient_times_divisor(p, d);
    assert(power(permille, e + 1) == permille * power(permille, e));
    assert(power(1000, e + 1) == 1000 * d);
    assert((1000 * d) * q <= base * (permille * power(permille, e))) by (nonlinear_arith)
        requires
            d * q <= p,
            p == base * power(permille, e),
            permille >= 1000,
    ;
    lemma_quotient_at_least(base * power(permille, e + 1), power(1000, e + 1), q);
}

/// One more factor of a multiplier of at most one never lengthens the wait.
proof fn lemma_scaled_step_down(base: nat, permille: nat, e: nat)
    requires
        permille <= 1000,
    ensures
        scaled(base, permille, e + 1) <= scaled(base, permille, e),
{
    let p = base * power(permille, e);
    let d = power(1000, e);
    lemma_power_positive(1000, e);
    let q = p / d;
    lemma_quotient_times_divisor(p, d);
    assert(power(permille, e + 1) == permille * power(permille, e));
    assert(power(1000, e + 1) == 1000 * d);
    assert(base * (permille * power(permille, e)) < (1000 * d) * (q + 1)) by (nonlinear_arith)
        requires
            p < d * (q + 1),
            p == base * power(permille, e),
            permille <= 1000,
    ;
    lemma_quotient_below(base * power(permille, e + 1), power(1000, e + 1), q + 1);
}

/// With a multiplier of at least one, a higher power never gives a shorter
/// wait.
pub proof fn lemma_scaled_grows(base: nat, permille: nat, i: nat, j: nat)
    requires
        permille >= 1000,
        i <= j,
    ensures
        scaled(base, permille, i) <= scaled(base, permille, j),
    decreases j,
{
    if i < j {
        lemma_scaled_grows(base, permille, i, (j - 1) as nat);
        lemma_scaled_step_up(base, permille, (j - 1) as nat);
    }
}

/// With a multiplier of at most one, a higher power never gives a longer
/// wait.
pub proof fn lemma_scaled_shrinks(base: nat, permille: nat, i: nat, j: nat)
    requires
        permille <= 1000,
        i <= j,
    ensures
        scaled(base, permille, j) <= scaled(base, permille, i),
    decreases j,
{
    if i < j {
        lemma_scaled_shrinks(base, permille, i, (j - 1) as nat);
        lemma_scaled_step_down(base, permille, (j - 1) as nat);
    }
}

/// No factor at all leaves the base delay as it is.
pub proof fn lemma_scaled_zero(base: nat, permille: nat)
    ensures
        scaled(base, permille, 0) == base,
{
    assert(power(permille, 0) == 1);
    assert(power(1000, 0) == 1);
    assert(base * 1 / 1 == base) by (nonlinear_arith);
}

/// A multiplier of one leaves the base delay as it is.
pub proof fn lemma_scaled_by_one(base: nat, e: nat)
    ensures
        scaled(base, 1000, e) == base,
{
    let d = power(1000, e);
    lemma_power_positive(1000, e);
    assert(base * d / d == base) by (nonlinear_arith)
        requires
            d > 0,
    ;
}

/// Backoff monotonicity: with a multiplier of at least one, attempt `k + 1`
/// waits at least as long as attempt `k`; and whatever the multiplier, no
/// attempt waits longer than the cap.
pub proof fn lemma_backoff_monotone(k: nat, settings: McpSettings)
    ensures
        backoff_delay(k, settings) <= settings.max_restart_delay_ms,
        settings.backoff_multiplier_permille >= 1000 ==> backoff_delay(k + 1, settings)
            >= backoff_delay(k, settings),
{
    let base = settings.base_restart_delay_ms as nat;
    let permille = settings.backoff_multiplier_permille as nat;
    if permille >= 1000 {
        if k >= 1 {
            lemma_scaled_zero(base, permille);
            lemma_scaled_step_up(base, permille, (k - 1) as nat);
        }
    }
}

/// With a multiplier that is a whole number, the wait before attempt `k`,
/// before the cap applies, is the base delay times that number to the power
/// of `k - 1`.
pub proof fn lemma_whole_multiplier(base: nat, factor: nat, e: nat)
    ensures
        scaled(base, 1000 * factor, e) == base * power(factor, e),
        power(1000 * factor, e) == power(1000, e) * power(factor, e),
    decreases e,
{
    lemma_power_positive(1000, e);
    if e > 0 {
        lemma_whole_multiplier(base, factor, (e - 1) as nat);
        let a = power(1000, (e - 1) as nat);
        let b = power(factor, (e - 1) as nat);
        assert(power(1000 * factor, e) == (1000 * factor) * power(1000 * factor, (e - 1) as nat));
        assert((1000 * factor) * (a * b) == (1000 * a) * (factor * b)) by (nonlinear_arith);
    } else {
        assert(power(1000 * factor, 0) == 1);
        assert(power(1000, 0) * power(factor, 0) == 1) by (nonlinear_arith)
            requires
                power(1000, 0) == 1,
                power(factor, 0) == 1,
        ;
    }
    let d = power(1000, e);
    let f = power(factor, e);
    assert(base * (d * f) / d == base * f) by (nonlinear_arith)
        requires
            d > 0,
    ;
}

/// The wait before restart attempt `restart_count`, in milliseconds.
pub fn calculate_exponential_backoff_delay(restart_count: u32, settings: &McpSettings) -> (delay:
    u64)
    ensures
        delay == backoff_delay(restart_count as nat, *settings),
{
    let base: u64 = settings.base_restart_delay_ms;
    let cap: u64 = settings.max_restart_delay_ms;
    let permille: u64 = settings.backoff_multiplier_permille;
    if restart_count <= 1 || permille == 1000 {
        proof {
            lemma_scaled_by_one(base as nat, (restart_count - 1) as nat);
        }
        return if base <= cap {
            base
        } else {
            cap
        };
    }
    let exponent: u32 = restart_count - 1;
    if base == 0 {
        proof {
            let d = power(1000, exponent as nat);
            lemma_power_positive(1000, exponent as nat);
            assert(0 * power(permille as nat, exponent as nat) / d == 0) by (nonlinear_arith)
                requires
                    d > 0,
            ;
        }
        return 0;
    }
    let grows = permille > 1000;
    let mut product = Big::from_u64(base);
    let mut divisor = Big::from_u64(1);
    let mut done: u32 = 0;
    proof {
        assert(power(permille as nat, 0) == 1);
        assert(power(1000, 0) == 1);
        assert(base as nat * 1 == base as nat);
    }
    while done < exponent
        invariant
            done <= exponent,
            restart_count >= 2,
            exponent == restart_count - 1,
            base == settings.base_restart_delay_ms,
            cap == settings.max_restart_delay_ms,
            permille == settings.backoff_multiplier_permille,
            grows == (permille > 1000),
            permille != 1000,
            product@ == base as nat * power(permille as nat, done as nat),
            divisor@ == power(1000, done as nat),
        decreases exponent - done,
    {
        proof {
            lemma_power_positive(1000, done as nat);
        }
        if grows {
            let bound = divisor.times(cap);
            if product.at_least(&bound) {
                proof {
                    lemma_quotient_at_least(product@, divisor@, cap as nat);
                    lemma_scaled_grows(base as nat, permille as nat, done as nat, exponent as nat);
                }
                return cap;
            }
        } else {
            if !product.at_least(&divisor) {
                proof {
                    assert(product@ < divisor@ * 1) by (nonlinear_arith)
                        requires
                            product@ < divisor@,
                    ;
                    lemma_quotient_below(product@, divisor@, 1);
                    lemma_scaled_shrinks(
                        base as nat,
                        permille as nat,
                        done as nat,
                        exponent as nat,
                    );
                }
                return 0;
            }
        }
        proof {
            assert(power(permille as nat, (done + 1) as nat) == permille as nat * power(
                permille as nat,
                done as nat,
            ));
            assert(power(1000, (done + 1) as nat) == 1000 * power(1000, done as nat));
            assert(base as nat * power(permille as nat, done as nat) * permille as nat
                == base as nat * (permille as nat * power(permille as nat, done as nat)))
                by (nonlinear_arith);
            assert(power(1000, done as nat) * 1000 == 1000 * power(1000, done as nat))
                by (nonlinear_arith);
        }
        product = product.times(permille);
        divisor = divisor.times(1000);
        done = done + 1;
    }
    proof {
        lemma_power_positive(1000, exponent as nat);
    }
    let bound = divisor.times(cap);
    if product.at_least(&bound) {
        proof {
            lemma_quotient_at_least(product@, divisor@, cap as nat);
        }
        return cap;
    }
    let mut low: u64 = 0;
    let mut high: u64 = cap;
    proof {
        assert(divisor@ * 0 <= product@) by (nonlinear_arith);
    }
    while high - low > 1
        invariant
            low < high <= cap,
            divisor@ >= 1,
            divisor@ * low as nat <= product@,
            product@ < divisor@ * high as nat,
        decreases high - low,
    {
        let middle: u64 = low + (high - low) / 2;
        let reached = divisor.times(middle);
        if product.at_least(&reached) {
            low = middle;
        } else {
            high = middle;
        }
    }
    proof {
        lemma_quotient_at_least(product@, divisor@, low as nat);
        lemma_quotient_below(product@, divisor@, high as nat);
    }
    low
}

} // verus!

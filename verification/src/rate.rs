//! Maps the caller's rate scale, on which `1000` means normal speed, to the
//! rate scale of an engine, which has its own slowest, normal and fastest
//! rates.
//!
//! The map is linear on each side of normal speed: the caller's rates from
//! `250` to `1000` spread evenly from the engine's slowest rate to its normal
//! rate, and those from `1000` to `4000` from its normal rate to its fastest.
//! Engine rates are counted in thousandths of the engine's unit, and a result
//! that falls between two thousandths is rounded down.
use crate::models::{Milli, DEFAULT_RATE};
use crate::validator::{clamp, clamped};
use vstd::arithmetic::div_mod::{
    lemma_div_is_ordered, lemma_div_multiples_vanish, lemma_fundamental_div_mod_converse,
};
use vstd::arithmetic::mul::{lemma_mul_inequality, lemma_mul_is_commutative};
use vstd::prelude::*;

verus! {

/// The caller's rate that maps to the engine's slowest rate; slower requests
/// map there too.
pub const SLOWEST_MAPPED_RATE: Milli = 250;

/// The caller's rate that maps to the engine's fastest rate.
pub const FASTEST_MAPPED_RATE: Milli = 4000;

/// The rates of an engine, in thousandths of the engine's own unit.
#[derive(Debug, Clone, Copy, PartialEq, Eq, Structural)]
pub struct RateBounds {
    /// The slowest rate that the engine takes.
    pub min: i64,
    /// The rate at which the engine speaks when left alone.
    pub normal: i64,
    /// The fastest rate that the engine takes.
    pub max: i64,
}

impl RateBounds {
    /// Slowest, normal and fastest rate stand in this order.
    pub open spec fn ordered(self) -> bool {
        self.min <= self.normal <= self.max
    }
}

/// The point `step` parts of `steps` along the way from `from` to `to`,
/// rounded down.
pub open spec fn interpolated(from: int, to: int, step: int, steps: int) -> int {
    from + (step * (to - from)) / steps
}

/// The engine rate for a caller's rate.
pub open spec fn normalized(bounds: RateBounds, user_rate: int) -> int {
    if user_rate <= DEFAULT_RATE {
        interpolated(
            bounds.min as int,
            bounds.normal as int,
            clamped(user_rate, SLOWEST_MAPPED_RATE as int, DEFAULT_RATE as int)
                - SLOWEST_MAPPED_RATE,
            DEFAULT_RATE - SLOWEST_MAPPED_RATE,
        )
    } else {
        interpolated(
            bounds.normal as int,
            bounds.max as int,
            clamped(user_rate, DEFAULT_RATE as int, FASTEST_MAPPED_RATE as int) - DEFAULT_RATE,
            FASTEST_MAPPED_RATE - DEFAULT_RATE,
        )
    }
}

/// An interpolated point lies between the two ends, whichever of them is
/// the greater.
pub proof fn lemma_interpolated_between(from: int, to: int, step: int, steps: int)
    requires
        0 <= step <= steps,
        0 < steps,
    ensures
        from <= to ==> from <= interpolated(from, to, step, steps) <= to,
        to <= from ==> to <= interpolated(from, to, step, steps) <= from,
        step == 0 ==> interpolated(from, to, step, steps) == from,
        step == steps ==> interpolated(from, to, step, steps) == to,
{
    let span = to - from;
    lemma_div_multiples_vanish(span, steps);
    lemma_mul_is_commutative(steps, span);
    lemma_div_multiples_vanish(0, steps);
    assert(steps * 0 == 0);
    if span >= 0 {
        lemma_mul_inequality(0, step, span);
        lemma_mul_inequality(step, steps, span);
        lemma_div_is_ordered(0, step * span, steps);
        lemma_div_is_ordered(step * span, steps * span, steps);
    } else {
        lemma_mul_inequality(0, step, -span);
        lemma_mul_inequality(step, steps, -span);
        assert(step * (-span) == -(step * span)) by (nonlinear_arith);
        assert(steps * (-span) == -(steps * span)) by (nonlinear_arith);
        lemma_div_is_ordered(steps * span, step * span, steps);
        lemma_div_is_ordered(step * span, 0, steps);
    }
    if step == 0 {
        assert(step * span == 0);
    }
}

/// The quotient of `n` by a positive `d`, rounded down.
fn floor_div(n: i128, d: i128) -> (q: i128)
    requires
        d > 0,
        n > i128::MIN,
    ensures
        q == n / d,
{
    if n >= 0 {
        n / d
    } else {
        let m: i128 = -(n + 1);
        let q: i128 = -(m / d) - 1;
        proof {
            let r = d - 1 - (m % d);
            assert(m == d * (m / d) + m % d) by {
                vstd::arithmetic::div_mod::lemma_fundamental_div_mod(m as int, d as int);
            }
            assert(0 <= m % d < d) by {
                vstd::arithmetic::div_mod::lemma_mod_bound(m as int, d as int);
            }
            assert(n == q * d + r) by (nonlinear_arith)
                requires
                    n == -(m + 1),
                    q == -(m / d) - 1,
                    r == d - 1 - (m % d),
                    m == d * (m / d) + m % d,
            ;
            lemma_fundamental_div_mod_converse(n as int, d as int, q as int, r as int);
        }
        q
    }
}

/// The point `step` parts of `steps` along the way from `from` to `to`,
/// rounded down.
pub fn interpolate(from: i64, to: i64, step: i64, steps: i64) -> (point: i64)
    requires
        0 <= step <= steps,
        0 < steps,
    ensures
        point == interpolated(from as int, to as int, step as int, steps as int),
{
    let span: i128 = to as i128 - from as i128;
    assert(-0x1_0000_0000_0000_0000 < span < 0x1_0000_0000_0000_0000);
    assert(-0x8000_0000_0000_0000 * 0x1_0000_0000_0000_0000 < step * span
        < 0x8000_0000_0000_0000 * 0x1_0000_0000_0000_0000) by (nonlinear_arith)
        requires
            0 <= step < 0x8000_0000_0000_0000,
            -0x1_0000_0000_0000_0000 < span < 0x1_0000_0000_0000_0000,
    ;
    let scaled: i128 = step as i128 * span;
    let offset: i128 = floor_div(scaled, steps as i128);
    proof {
        lemma_interpolated_between(from as int, to as int, step as int, steps as int);
    }
    let point: i128 = from as i128 + offset;
    point as i64
}

/// The engine rate for a caller's rate. Every caller's rate has one: rates
/// below `250` map to the engine's slowest rate and rates above `4000` to its
/// fastest.
pub fn normalize(bounds: RateBounds, user_rate: Milli) -> (native: i64)
    ensures
        native == normalized(bounds, user_rate as int),
        bounds.ordered() ==> bounds.min <= native <= bounds.max,
        user_rate == DEFAULT_RATE ==> native == bounds.normal,
{
    proof {
        lemma_normalized_in_bounds(bounds, user_rate as int);
        lemma_normal_maps_to_normal(bounds);
    }
    if user_rate <= DEFAULT_RATE {
        let step: i64 = clamp(user_rate, SLOWEST_MAPPED_RATE, DEFAULT_RATE) - SLOWEST_MAPPED_RATE;
        interpolate(bounds.min, bounds.normal, step, DEFAULT_RATE - SLOWEST_MAPPED_RATE)
    } else {
        let step: i64 = clamp(user_rate, DEFAULT_RATE, FASTEST_MAPPED_RATE) - DEFAULT_RATE;
        interpolate(bounds.normal, bounds.max, step, FASTEST_MAPPED_RATE - DEFAULT_RATE)
    }
}

/// The caller's normal rate maps to the engine's normal rate exactly,
/// whatever the engine's three rates are.
pub proof fn lemma_normal_maps_to_normal(bounds: RateBounds)
    ensures
        normalized(bounds, DEFAULT_RATE as int) == bounds.normal,
{
    lemma_interpolated_between(
        bounds.min as int,
        bounds.normal as int,
        DEFAULT_RATE - SLOWEST_MAPPED_RATE,
        DEFAULT_RATE - SLOWEST_MAPPED_RATE,
    );
}

/// The ends of the caller's scale map to the ends of the engine's scale, and
/// so does everything beyond them.
pub proof fn lemma_ends_map_to_ends(bounds: RateBounds, user_rate: int)
    ensures
        user_rate <= SLOWEST_MAPPED_RATE ==> normalized(bounds, user_rate) == bounds.min,
        user_rate >= FASTEST_MAPPED_RATE ==> normalized(bounds, user_rate) == bounds.max,
{
    lemma_interpolated_between(
        bounds.min as int,
        bounds.normal as int,
        0,
        DEFAULT_RATE - SLOWEST_MAPPED_RATE,
    );
    lemma_interpolated_between(
        bounds.normal as int,
        bounds.max as int,
        FASTEST_MAPPED_RATE - DEFAULT_RATE,
        FASTEST_MAPPED_RATE - DEFAULT_RATE,
    );
}

/// Where the engine's rates stand in order, a normalized rate lies between
/// the slowest and the fastest, on the caller's side of normal: at or below
/// the engine's normal rate for a caller's rate at or below normal, at or
/// above it otherwise.
pub proof fn lemma_normalized_in_bounds(bounds: RateBounds, user_rate: int)
    ensures
        bounds.ordered() ==> bounds.min <= normalized(bounds, user_rate) <= bounds.max,
        bounds.ordered() && user_rate <= DEFAULT_RATE ==> normalized(bounds, user_rate)
            <= bounds.normal,
        bounds.ordered() && user_rate >= DEFAULT_RATE ==> normalized(bounds, user_rate)
            >= bounds.normal,
{
    lemma_normal_maps_to_normal(bounds);
    if user_rate <= DEFAULT_RATE {
        lemma_interpolated_between(
            bounds.min as int,
            bounds.normal as int,
            clamped(user_rate, SLOWEST_MAPPED_RATE as int, DEFAULT_RATE as int)
                - SLOWEST_MAPPED_RATE,
            DEFAULT_RATE - SLOWEST_MAPPED_RATE,
        );
    } else {
        lemma_interpolated_between(
            bounds.normal as int,
            bounds.max as int,
            clamped(user_rate, DEFAULT_RATE as int, FASTEST_MAPPED_RATE as int) - DEFAULT_RATE,
            FASTEST_MAPPED_RATE - DEFAULT_RATE,
        );
    }
}

/// Where the engine's rates stand in order, a faster caller's rate never
/// maps to a slower engine rate.
pub proof fn lemma_normalized_is_monotonic(bounds: RateBounds, slower: int, faster: int)
    requires
        bounds.ordered(),
        slower <= faster,
    ensures
        normalized(bounds, slower) <= normalized(bounds, faster),
{
    lemma_normalized_in_bounds(bounds, slower);
    lemma_normalized_in_bounds(bounds, faster);
    if faster <= DEFAULT_RATE {
        let span = bounds.normal - bounds.min;
        let a = clamped(slower, SLOWEST_MAPPED_RATE as int, DEFAULT_RATE as int)
            - SLOWEST_MAPPED_RATE;
        let b = clamped(faster, SLOWEST_MAPPED_RATE as int, DEFAULT_RATE as int)
            - SLOWEST_MAPPED_RATE;
        lemma_mul_inequality(a, b, span);
        lemma_div_is_ordered(a * span, b * span, DEFAULT_RATE - SLOWEST_MAPPED_RATE);
    } else if slower > DEFAULT_RATE {
        let span = bounds.max - bounds.normal;
        let a = clamped(slower, DEFAULT_RATE as int, FASTEST_MAPPED_RATE as int) - DEFAULT_RATE;
        let b = clamped(faster, DEFAULT_RATE as int, FASTEST_MAPPED_RATE as int) - DEFAULT_RATE;
        lemma_mul_inequality(a, b, span);
        lemma_div_is_ordered(a * span, b * span, FASTEST_MAPPED_RATE - DEFAULT_RATE);
    }
}

} // verus!

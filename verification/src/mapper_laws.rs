//! What holds of the mapping for every configuration and every sample.

use vstd::prelude::*;
use vstd::arithmetic::div_mod::{
    lemma_div_multiples_vanish,
    lemma_fundamental_div_mod,
    lemma_fundamental_div_mod_converse,
    lemma_mod_bound,
};
use crate::config::{is_fraction, MappingConfig};
use crate::mapper::{blend, lemma_blend_between, MapperState};
use crate::units::{clamp_unit, FULL_SCALE};

verus! {

/// Every target and every output is a fraction, and a mapper stays well
/// formed over a sample.
pub proof fn lemma_output_in_range(state: MapperState, distance_mm: u16)
    requires
        state.wf(),
    ensures
        0 <= state.config.target(distance_mm) <= FULL_SCALE,
        0 <= state.output(distance_mm) <= FULL_SCALE,
        state.after(distance_mm).wf(),
{
    lemma_blend_between(
        state.config.smoothing as int,
        state.smoothed,
        state.config.target(distance_mm),
    );
}

/// Whether a mapper hands the target on as it is: it does not smooth, or
/// it has seen no sample yet.
pub open spec fn is_unsmoothed(state: MapperState) -> bool {
    state.config.smoothing == 0 || !state.initialized
}

/// With no smoothing the output is the target on every call; with full
/// smoothing the output stays what it was; and the first output of a
/// mapper is the target whatever the smoothing.
pub proof fn lemma_smoothing_extremes(state: MapperState, distance_mm: u16)
    requires
        state.wf(),
    ensures
        is_unsmoothed(state) ==> state.output(distance_mm) == state.config.target(distance_mm),
        state.config.smoothing == FULL_SCALE && state.initialized ==> state.output(distance_mm)
            == state.smoothed,
{
    let target = state.config.target(distance_mm);
    let full = FULL_SCALE as int;
    assert(0 * state.smoothed + (full - 0) * target == full * target) by (nonlinear_arith);
    assert(full * state.smoothed + (full - full) * target == full * state.smoothed)
        by (nonlinear_arith);
}

/// How far the moving average gets in one step, with a smoothing factor
/// below one. Above the target it comes down by at least one millionth.
/// Below the target it goes up whenever the weighted distance to the target
/// is a millionth or more; nearer than that, rounding down holds it where
/// it is.
pub proof fn lemma_blend_progress(alpha: int, previous: int, target: int)
    requires
        0 <= alpha < FULL_SCALE,
    ensures
        target < previous ==> blend(alpha, previous, target) < previous,
        previous < target && (FULL_SCALE - alpha) * (target - previous) >= FULL_SCALE ==> previous
            < blend(alpha, previous, target),
        previous < target && (FULL_SCALE - alpha) * (target - previous) < FULL_SCALE ==> previous
            == blend(alpha, previous, target),
{
    let full = FULL_SCALE as int;
    let rest = full - alpha;
    let sum = alpha * previous + rest * target;
    assert(sum == full * previous + rest * (target - previous)) by (nonlinear_arith)
        requires
            rest == full - alpha,
            sum == alpha * previous + rest * target,
    ;
    if target < previous {
        assert(rest * (target - previous) < 0) by (nonlinear_arith)
            requires
                0 < rest,
                target < previous,
        ;
    }
    if previous < target {
        assert(rest * (target - previous) > 0) by (nonlinear_arith)
            requires
                0 < rest,
                previous < target,
        ;
    }
}

/// The output after `steps` further samples that all ask for `target`,
/// starting from the output `start`.
pub open spec fn settle(alpha: int, start: int, target: int, steps: nat) -> int
    decreases steps,
{
    if steps == 0 {
        start
    } else {
        blend(alpha, settle(alpha, start, target, (steps - 1) as nat), target)
    }
}

/// After a step change of the target the outputs move towards it and never
/// past it: from below they never fall and never exceed the target, from
/// above they never rise and never go under it.
pub proof fn lemma_settle_monotonic(alpha: int, start: int, target: int, steps: nat)
    requires
        0 <= alpha <= FULL_SCALE,
    ensures
        start <= target ==> start <= settle(alpha, start, target, steps) <= settle(
            alpha,
            start,
            target,
            steps + 1,
        ) <= target,
        target <= start ==> target <= settle(alpha, start, target, steps + 1) <= settle(
            alpha,
            start,
            target,
            steps,
        ) <= start,
    decreases steps,
{
    if steps > 0 {
        lemma_settle_monotonic(alpha, start, target, (steps - 1) as nat);
    }
    lemma_blend_between(alpha, settle(alpha, start, target, steps), target);
}

/// How far the outputs have got after `steps` samples that ask for the
/// same target, with a smoothing factor below one. From above they are
/// down by `steps` millionths or at the target. From below they are up by
/// `steps` millionths or so near the target that rounding down holds them.
proof fn lemma_settle_advances(alpha: int, start: int, target: int, steps: nat)
    requires
        0 <= alpha < FULL_SCALE,
    ensures
        target <= start ==> settle(alpha, start, target, steps) <= start - steps || settle(
            alpha,
            start,
            target,
            steps,
        ) == target,
        start <= target ==> start + steps <= settle(alpha, start, target, steps) || (FULL_SCALE
            - alpha) * (target - settle(alpha, start, target, steps)) < FULL_SCALE,
    decreases steps,
{
    if steps > 0 {
        let before = settle(alpha, start, target, (steps - 1) as nat);
        lemma_settle_advances(alpha, start, target, (steps - 1) as nat);
        lemma_settle_monotonic(alpha, start, target, (steps - 1) as nat);
        lemma_blend_progress(alpha, before, target);
        lemma_blend_between(alpha, before, target);
        if start <= target && before == target {
            assert((FULL_SCALE - alpha) * (target - before) == 0) by (nonlinear_arith)
                requires
                    target - before == 0,
            ;
        }
    } else if start == target {
        assert((FULL_SCALE - alpha) * (target - start) == 0) by (nonlinear_arith)
            requires
                target - start == 0,
        ;
    }
}

/// With a smoothing factor below one the outputs converge after a step
/// change of the target. Once as many samples have asked for the target as
/// the output was millionths away from it, an output that came from above
/// has reached the target, and one that came from below is so near it that
/// the weighted distance is under one millionth.
pub proof fn lemma_settle_converges(alpha: int, start: int, target: int, steps: nat)
    requires
        0 <= alpha < FULL_SCALE,
        steps >= start - target,
        steps >= target - start,
    ensures
        target <= start ==> settle(alpha, start, target, steps) == target,
        start <= target ==> settle(alpha, start, target, steps) <= target && (FULL_SCALE - alpha)
            * (target - settle(alpha, start, target, steps)) < FULL_SCALE,
{
    lemma_settle_advances(alpha, start, target, steps);
    lemma_settle_monotonic(alpha, start, target, steps);
    let reached = settle(alpha, start, target, steps);
    if start <= target && start + steps <= reached {
        assert(reached == target);
        assert((FULL_SCALE - alpha) * (target - reached) == 0) by (nonlinear_arith)
            requires
                target - reached == 0,
        ;
    }
}

/// A mapper fed the same sample again and again runs through `settle`.
pub proof fn lemma_repeated_sample_settles(state: MapperState, distance_mm: u16, steps: nat)
    requires
        state.wf(),
        state.initialized,
    ensures
        repeat(state, distance_mm, steps).wf(),
        repeat(state, distance_mm, steps).config == state.config,
        repeat(state, distance_mm, steps).smoothed == settle(
            state.config.smoothing as int,
            state.smoothed,
            state.config.target(distance_mm),
            steps,
        ),
        repeat(state, distance_mm, steps).initialized,
    decreases steps,
{
    if steps > 0 {
        lemma_repeated_sample_settles(state, distance_mm, (steps - 1) as nat);
        lemma_output_in_range(repeat(state, distance_mm, (steps - 1) as nat), distance_mm);
    }
}

/// The mapper after the same sample has been mapped `steps` times.
pub open spec fn repeat(state: MapperState, distance_mm: u16, steps: nat) -> MapperState
    decreases steps,
{
    if steps == 0 {
        state
    } else {
        repeat(state, distance_mm, (steps - 1) as nat).after(distance_mm)
    }
}

/// Inverted, not smoothed, and not beyond the dead zone: a sample at or
/// below the near end of the range maps to the upper intensity bound.
pub proof fn lemma_closest_is_max(state: MapperState, distance_mm: u16)
    requires
        state.wf(),
        state.config.invert,
        is_unsmoothed(state),
        distance_mm <= state.config.min_range_mm,
        !state.config.in_dead_zone(distance_mm),
    ensures
        state.output(distance_mm) == clamp_unit(state.config.max_intensity as int),
        is_fraction(state.config.max_intensity) ==> state.output(distance_mm)
            == state.config.max_intensity,
{
    let c = state.config;
    lemma_smoothing_extremes(state, distance_mm);
    if c.span() > 0 {
        lemma_div_multiples_vanish(c.max_intensity - c.min_intensity, c.span());
    }
}

/// Inverted, not smoothed, on a range that is more than a point, and not
/// beyond the dead zone: a sample at or above the far end of the range maps
/// to the lower intensity bound.
pub proof fn lemma_farthest_is_min(state: MapperState, distance_mm: u16)
    requires
        state.wf(),
        state.config.invert,
        is_unsmoothed(state),
        state.config.min_range_mm < state.config.max_range_mm,
        distance_mm >= state.config.max_range_mm,
        !state.config.in_dead_zone(distance_mm),
    ensures
        state.output(distance_mm) == clamp_unit(state.config.min_intensity as int),
        is_fraction(state.config.min_intensity) ==> state.output(distance_mm)
            == state.config.min_intensity,
{
    let c = state.config;
    lemma_smoothing_extremes(state, distance_mm);
    assert(c.directed(distance_mm) == 0);
    assert(0 * (c.max_intensity - c.min_intensity) == 0);
    assert(0int / c.span() == 0);
}

/// Half of a quantity, taken as so many parts out of twice as many.
proof fn lemma_half_share(half: int, rise: int)
    requires
        0 < half,
    ensures
        (half * rise) / (2 * half) == rise / 2,
{
    let q = rise / 2;
    let r = rise % 2;
    lemma_fundamental_div_mod(rise, 2);
    assert(half * rise == (2 * half) * q + half * r) by (nonlinear_arith)
        requires
            rise == 2 * q + r,
    ;
    assert(0 <= half * r < 2 * half) by (nonlinear_arith)
        requires
            0 < half,
            0 <= r < 2,
    ;
    lemma_fundamental_div_mod_converse(half * rise, 2 * half, q, half * r);
}

/// Not smoothed, with both intensity bounds fractions, and not beyond the
/// dead zone: a sample at the exact midpoint of the range maps to the
/// midpoint of the two intensity bounds, rounded down, whichever way the
/// mapping runs.
pub proof fn lemma_midpoint_is_mean(state: MapperState, distance_mm: u16)
    requires
        state.wf(),
        is_unsmoothed(state),
        is_fraction(state.config.min_intensity),
        is_fraction(state.config.max_intensity),
        state.config.min_range_mm < state.config.max_range_mm,
        2 * (distance_mm - state.config.min_range_mm) == state.config.span(),
        !state.config.in_dead_zone(distance_mm),
    ensures
        state.output(distance_mm) == (state.config.min_intensity + state.config.max_intensity)
            / 2,
{
    let c = state.config;
    let half = distance_mm - c.min_range_mm;
    let rise = c.max_intensity - c.min_intensity;
    lemma_smoothing_extremes(state, distance_mm);
    assert(c.clamped(distance_mm) == distance_mm);
    assert(c.directed(distance_mm) == half);
    assert(c.span() == 2 * half);
    lemma_half_share(half, rise);
    assert(c.scaled(distance_mm) == c.min_intensity + rise / 2);
}

/// A sample beyond an enabled dead zone asks for no output, whichever way
/// the mapping runs; without smoothing, or as the first sample, it maps
/// to zero.
pub proof fn lemma_dead_zone_is_zero(state: MapperState, distance_mm: u16)
    requires
        state.wf(),
        state.config.deadzone_mm > 0,
        distance_mm > state.config.deadzone_mm,
    ensures
        state.config.target(distance_mm) == 0,
        is_unsmoothed(state) ==> state.output(distance_mm) == 0,
        state.output(distance_mm) <= state.smoothed || !state.initialized,
{
    lemma_smoothing_extremes(state, distance_mm);
    lemma_output_in_range(state, distance_mm);
    lemma_blend_between(state.config.smoothing as int, state.smoothed, 0);
}

/// The same configuration with the direction of the mapping turned round.
pub open spec fn flipped(config: MappingConfig) -> MappingConfig {
    MappingConfig { invert: !config.invert, ..config }
}

/// Two parts that make up a whole take shares that make up the whole
/// quantity, less at most one for rounding.
proof fn lemma_shares_add_up(part: int, span: int, rise: int)
    requires
        0 < span,
    ensures
        rise - 1 <= (part * rise) / span + ((span - part) * rise) / span <= rise,
{
    let x = part * rise;
    let y = (span - part) * rise;
    let q1 = x / span;
    let r1 = x % span;
    let q2 = y / span;
    let r2 = y % span;
    lemma_fundamental_div_mod(x, span);
    lemma_fundamental_div_mod(y, span);
    lemma_mod_bound(x, span);
    lemma_mod_bound(y, span);
    assert(x + y == span * rise) by (nonlinear_arith)
        requires
            x == part * rise,
            y == (span - part) * rise,
    ;
    assert(span * (rise - q1 - q2) == r1 + r2) by (nonlinear_arith)
        requires
            x + y == span * rise,
            x == span * q1 + r1,
            y == span * q2 + r2,
    ;
    let k = rise - q1 - q2;
    assert(0 <= k <= 1) by (nonlinear_arith)
        requires
            span * k == r1 + r2,
            0 <= r1 + r2 < 2 * span,
            0 < span,
    ;
}

/// Turning the direction round mirrors the mapping: the two directed
/// values of a sample make up the whole range, so where one mapping is at
/// its near end the other is at its far end, and the two scaled values make
/// up the sum of the intensity bounds, less at most one for rounding.
pub proof fn lemma_flip_mirrors(config: MappingConfig, distance_mm: u16)
    requires
        config.min_range_mm <= config.max_range_mm,
    ensures
        config.directed(distance_mm) + flipped(config).directed(distance_mm) == config.span(),
        0 <= config.directed(distance_mm) <= config.span(),
        config.min_intensity + config.max_intensity - 1 <= config.scaled(distance_mm) + flipped(
            config,
        ).scaled(distance_mm) <= config.min_intensity + config.max_intensity,
        config.in_dead_zone(distance_mm) == flipped(config).in_dead_zone(distance_mm),
{
    let rise = config.max_intensity - config.min_intensity;
    let part = config.directed(distance_mm);
    assert(flipped(config).span() == config.span());
    assert(flipped(config).clamped(distance_mm) == config.clamped(distance_mm));
    assert(flipped(config).directed(distance_mm) == config.span() - part);
    if config.span() > 0 {
        lemma_shares_add_up(part, config.span(), rise);
    }
}

/// Not inverted, not smoothed, on a range that is more than a point, and not
/// beyond the dead zone: the ends change places. A sample at or below the
/// near end maps to the lower intensity bound, one at or above the far end
/// to the upper bound.
pub proof fn lemma_plain_ends(state: MapperState, distance_mm: u16)
    requires
        state.wf(),
        !state.config.invert,
        is_unsmoothed(state),
        state.config.min_range_mm < state.config.max_range_mm,
        !state.config.in_dead_zone(distance_mm),
    ensures
        distance_mm <= state.config.min_range_mm ==> state.output(distance_mm) == clamp_unit(
            state.config.min_intensity as int,
        ),
        distance_mm >= state.config.max_range_mm ==> state.output(distance_mm) == clamp_unit(
            state.config.max_intensity as int,
        ),
{
    let c = state.config;
    lemma_smoothing_extremes(state, distance_mm);
    if distance_mm <= c.min_range_mm {
        assert(c.directed(distance_mm) == 0);
        assert(0 * (c.max_intensity - c.min_intensity) == 0);
        assert(0int / c.span() == 0);
    }
    if distance_mm >= c.max_range_mm {
        assert(c.directed(distance_mm) == c.span());
        lemma_div_multiples_vanish(c.max_intensity - c.min_intensity, c.span());
    }
}

} // verus!

//! The intensity mapper: a distance sample in, a smoothed intensity out.
//!
//! A sample passes the dead-zone test, is confined to the configured range,
//! placed on that range as a fraction, turned round if the mapping is
//! inverted, scaled between the two intensity bounds, confined to zero to
//! full scale, and finally averaged with the previous output.

use vstd::prelude::*;
use crate::config::MappingConfig;
use crate::units::{clamp_unit, FULL_SCALE};

verus! {

impl MappingConfig {
    /// Whether the sample lies beyond an enabled dead zone.
    pub open spec fn in_dead_zone(self, distance_mm: u16) -> bool {
        self.deadzone_mm > 0 && distance_mm > self.deadzone_mm
    }

    /// Width of the configured range.
    pub open spec fn span(self) -> int {
        self.max_range_mm - self.min_range_mm
    }

    /// The sample confined to the configured range: raised to the lower end
    /// first, then lowered to the upper end.
    pub open spec fn clamped(self, distance_mm: u16) -> int {
        let raised = if distance_mm < self.min_range_mm {
            self.min_range_mm
        } else {
            distance_mm
        };
        if raised > self.max_range_mm {
            self.max_range_mm as int
        } else {
            raised as int
        }
    }

    /// The directed value as a count of millimetres out of `span()`: the
    /// place of the confined sample on the range, measured from the far end
    /// when the mapping is inverted and from the near end when it is not.
    pub open spec fn directed(self, distance_mm: u16) -> int {
        let offset = self.clamped(distance_mm) - self.min_range_mm;
        if self.invert {
            self.span() - offset
        } else {
            offset
        }
    }

    /// The directed value scaled between the two intensity bounds, rounded
    /// down, before it is confined. On a range of a single point the place
    /// on the range counts as zero.
    pub open spec fn scaled(self, distance_mm: u16) -> int {
        if self.span() == 0 {
            if self.invert {
                self.max_intensity as int
            } else {
                self.min_intensity as int
            }
        } else {
            self.min_intensity + (self.directed(distance_mm) * (self.max_intensity
                - self.min_intensity)) / self.span()
        }
    }

    /// The intensity that a sample asks for, before smoothing.
    pub open spec fn target(self, distance_mm: u16) -> int {
        if self.in_dead_zone(distance_mm) {
            0
        } else {
            clamp_unit(self.scaled(distance_mm))
        }
    }
}

/// The moving average of the previous output and the new target, with
/// weight `alpha` on the previous output, rounded down.
pub open spec fn blend(alpha: int, previous: int, target: int) -> int {
    (alpha * previous + (FULL_SCALE - alpha) * target) / (FULL_SCALE as int)
}

/// What a mapper is: its configuration and its smoothing accumulator.
pub struct MapperState {
    pub config: MappingConfig,
    pub smoothed: int,
    pub initialized: bool,
}

impl MapperState {
    /// The invariant of a mapper: a configuration it can run on and an
    /// accumulator within zero to full scale.
    pub open spec fn wf(self) -> bool {
        &&& self.config.is_mappable()
        &&& 0 <= self.smoothed <= FULL_SCALE
    }

    /// A mapper that has seen no sample yet.
    pub open spec fn fresh(config: MappingConfig) -> MapperState {
        MapperState { config, smoothed: 0, initialized: false }
    }

    /// The output for a sample: the target itself on the first sample, the
    /// moving average afterwards.
    pub open spec fn output(self, distance_mm: u16) -> int {
        let target = self.config.target(distance_mm);
        if self.initialized {
            blend(self.config.smoothing as int, self.smoothed, target)
        } else {
            target
        }
    }

    /// The mapper after a sample: the output becomes the accumulator.
    pub open spec fn after(self, distance_mm: u16) -> MapperState {
        MapperState {
            config: self.config,
            smoothed: self.output(distance_mm),
            initialized: true,
        }
    }
}

/// The moving average never leaves the interval between the previous
/// output and the target.
pub proof fn lemma_blend_between(alpha: int, previous: int, target: int)
    requires
        0 <= alpha <= FULL_SCALE,
    ensures
        previous <= target ==> previous <= blend(alpha, previous, target) <= target,
        target <= previous ==> target <= blend(alpha, previous, target) <= previous,
{
    let full = FULL_SCALE as int;
    let rest = full - alpha;
    let sum = alpha * previous + rest * target;
    assert(alpha * previous + rest * previous == full * previous) by (nonlinear_arith)
        requires
            rest == full - alpha,
    ;
    assert(alpha * target + rest * target == full * target) by (nonlinear_arith)
        requires
            rest == full - alpha,
    ;
    if previous <= target {
        assert(rest * previous <= rest * target) by (nonlinear_arith)
            requires
                0 <= rest,
                previous <= target,
        ;
        assert(alpha * previous <= alpha * target) by (nonlinear_arith)
            requires
                0 <= alpha,
                previous <= target,
        ;
        assert(full * previous <= sum <= full * target);
    }
    if target <= previous {
        assert(rest * target <= rest * previous) by (nonlinear_arith)
            requires
                0 <= rest,
                target <= previous,
        ;
        assert(alpha * target <= alpha * previous) by (nonlinear_arith)
            requires
                0 <= alpha,
                target <= previous,
        ;
        assert(full * target <= sum <= full * previous);
    }
}

/// Rounding a negative quotient down is rounding its magnitude up.
proof fn lemma_floor_of_negative(magnitude: int, divisor: int)
    requires
        0 < magnitude,
        0 < divisor,
    ensures
        (-magnitude) / divisor == -((magnitude + divisor - 1) / divisor),
{
    let up = (magnitude + divisor - 1) / divisor;
    let rem = (magnitude + divisor - 1) % divisor;
    vstd::arithmetic::div_mod::lemma_fundamental_div_mod(magnitude + divisor - 1, divisor);
    vstd::arithmetic::div_mod::lemma_mod_bound(magnitude + divisor - 1, divisor);
    assert(magnitude + divisor - 1 == divisor * up + rem);
    let low = divisor - 1 - rem;
    assert(-magnitude == divisor * (-up) + low) by (nonlinear_arith)
        requires
            magnitude + divisor - 1 == divisor * up + rem,
            low == divisor - 1 - rem,
    ;
    vstd::arithmetic::div_mod::lemma_fundamental_div_mod_converse(-magnitude, divisor, -up, low);
}

impl MappingConfig {
    /// The intensity that a sample asks for, before smoothing.
    pub fn target_intensity(&self, distance_mm: u16) -> (t: i64)
        requires
            self.min_range_mm <= self.max_range_mm,
        ensures
            t as int == self.target(distance_mm),
            0 <= t <= FULL_SCALE,
    {
        if self.deadzone_mm > 0 && distance_mm > self.deadzone_mm {
            return 0;
        }
        let raised: u16 = if distance_mm < self.min_range_mm {
            self.min_range_mm
        } else {
            distance_mm
        };
        let clamped: u16 = if raised > self.max_range_mm {
            self.max_range_mm
        } else {
            raised
        };
        let span: u16 = self.max_range_mm - self.min_range_mm;
        let offset: u16 = clamped - self.min_range_mm;
        let low: i128 = self.min_intensity as i128;
        let high: i128 = self.max_intensity as i128;
        if span == 0 {
            let end: i128 = if self.invert {
                high
            } else {
                low
            };
            return confine(end);
        }
        let directed: u16 = if self.invert {
            span - offset
        } else {
            offset
        };
        let rise: i128 = high - low;
        if rise >= 0 {
            assert(0 <= directed * rise <= 0x1_0000 * 0x1_0000_0000_0000_0000) by (nonlinear_arith)
                requires
                    0 <= directed < 0x1_0000,
                    0 <= rise < 0x1_0000_0000_0000_0000,
            ;
            let share: i128 = ((directed as i128) * rise) / (span as i128);
            assert(0 <= share <= directed * rise) by (nonlinear_arith)
                requires
                    0 <= directed * rise,
                    0 < span,
                    share == (directed * rise) / (span as int),
            ;
            confine(low + share)
        } else {
            let fall: i128 = low - high;
            assert(0 <= directed * fall <= 0x1_0000 * 0x1_0000_0000_0000_0000) by (nonlinear_arith)
                requires
                    0 <= directed < 0x1_0000,
                    0 < fall < 0x1_0000_0000_0000_0000,
            ;
            assert(directed * rise == -(directed * fall)) by (nonlinear_arith)
                requires
                    rise == -fall,
            ;
            if directed == 0 {
                assert(directed * rise == 0);
                assert(0int / (span as int) == 0);
                confine(low)
            } else {
                let magnitude: i128 = (directed as i128) * fall;
                assert(0 < magnitude) by (nonlinear_arith)
                    requires
                        0 < directed,
                        0 < fall,
                        magnitude == directed * fall,
                ;
                let share: i128 = (magnitude + (span as i128) - 1) / (span as i128);
                assert(0 <= share <= magnitude + span) by (nonlinear_arith)
                    requires
                        0 < magnitude,
                        0 < span,
                        share == (magnitude + span - 1) / (span as int),
                ;
                proof {
                    lemma_floor_of_negative(magnitude as int, span as int);
                }
                confine(low - share)
            }
        }
    }
}

/// Confines a wide value to zero to full scale.
fn confine(v: i128) -> (r: i64)
    ensures
        r as int == clamp_unit(v as int),
        0 <= r <= FULL_SCALE,
{
    if v < 0 {
        0
    } else if v > FULL_SCALE as i128 {
        FULL_SCALE
    } else {
        v as i64
    }
}

/// Turns distance samples into intensities and keeps the smoothing
/// accumulator between samples.
pub struct RangeMapper {
    config: MappingConfig,
    smoothed_intensity: i64,
    initialized: bool,
}

impl View for RangeMapper {
    type V = MapperState;

    closed spec fn view(&self) -> MapperState {
        MapperState {
            config: self.config,
            smoothed: self.smoothed_intensity as int,
            initialized: self.initialized,
        }
    }
}

impl RangeMapper {
    #[verifier::type_invariant]
    spec fn inv(self) -> bool {
        self@.wf()
    }

    /// A mapper that has seen no sample yet.
    pub fn new(config: MappingConfig) -> (mapper: RangeMapper)
        requires
            config.is_mappable(),
        ensures
            mapper@ == MapperState::fresh(config),
            mapper@.wf(),
    {
        RangeMapper { config, smoothed_intensity: 0, initialized: false }
    }

    /// The configuration in use.
    pub fn config(&self) -> (config: MappingConfig)
        ensures
            config == self@.config,
            self@.wf(),
    {
        proof {
            use_type_invariant(self);
        }
        self.config
    }

    /// Maps one sample to an intensity in millionths of full scale.
    pub fn map(&mut self, distance_mm: u16) -> (intensity: i64)
        ensures
            intensity as int == old(self)@.output(distance_mm),
            final(self)@ == old(self)@.after(distance_mm),
            0 <= intensity <= FULL_SCALE,
            old(self)@.wf(),
            final(self)@.wf(),
    {
        proof {
            use_type_invariant(&*self);
        }
        let target = self.config.target_intensity(distance_mm);
        self.apply_smoothing(target)
    }

    fn apply_smoothing(&mut self, target: i64) -> (intensity: i64)
        requires
            0 <= target <= FULL_SCALE,
        ensures
            intensity as int == (if old(self)@.initialized {
                blend(old(self)@.config.smoothing as int, old(self)@.smoothed, target as int)
            } else {
                target as int
            }),
            final(self)@ == (MapperState {
                config: old(self)@.config,
                smoothed: intensity as int,
                initialized: true,
            }),
            0 <= intensity <= FULL_SCALE,
            final(self)@.wf(),
    {
        proof {
            use_type_invariant(&*self);
        }
        if !self.initialized {
            self.smoothed_intensity = target;
            self.initialized = true;
            return target;
        }
        let alpha: i64 = self.config.smoothing;
        let previous: i64 = self.smoothed_intensity;
        proof {
            lemma_blend_between(alpha as int, previous as int, target as int);
            assert(0 <= alpha * previous <= FULL_SCALE * FULL_SCALE) by (nonlinear_arith)
                requires
                    0 <= alpha <= FULL_SCALE,
                    0 <= previous <= FULL_SCALE,
            ;
            assert(0 <= (FULL_SCALE - alpha) * target <= FULL_SCALE * FULL_SCALE)
                by (nonlinear_arith)
                requires
                    0 <= FULL_SCALE - alpha <= FULL_SCALE,
                    0 <= target <= FULL_SCALE,
            ;
        }
        let blended: i64 = (alpha * previous + (FULL_SCALE - alpha) * target) / FULL_SCALE;
        self.smoothed_intensity = blended;
        blended
    }

    /// Replaces the configuration and keeps the accumulator.
    pub fn update_config(&mut self, config: MappingConfig)
        requires
            config.is_mappable(),
        ensures
            final(self)@ == (MapperState { config, ..old(self)@ }),
            final(self)@.wf(),
    {
        proof {
            use_type_invariant(&*self);
        }
        self.config = config;
    }
}

} // verus!

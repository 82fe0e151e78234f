//! The limit model: the data structure holding every physical motion limit,
//! the limiter variants, and the typed setters that keep the derived
//! cornering field in step with the square-corner velocity.
//!
//! All quantities are fixed-point numbers counted in millionths of a unit
//! (`MICRO_PER_UNIT` micro-steps per unit), so a velocity of 300 units/s is
//! stored as `300 * MICRO_PER_UNIT`.

use vstd::prelude::*;
use vstd::arithmetic::div_mod::{lemma_div_is_ordered, lemma_div_multiples_vanish};
use vstd::arithmetic::mul::{lemma_mul_inequality, lemma_mul_is_commutative};

verus! {

/// Micro-steps per unit: every limit value is a count of millionths.
pub const MICRO_PER_UNIT: u64 = 1000000;

/// The cornering ratio in micro-units: sqrt(2) - 1, rounded to millionths.
/// For two moves meeting at a right angle, the instantaneous velocity
/// change the device tolerates is this fraction of the square-corner
/// velocity parameter.
pub const CORNER_RATIO_MICRO: u64 = 414214;

/// Default global velocity ceiling: 100 units/s.
pub const DEFAULT_MAX_VELOCITY: u64 = 100000000;

/// Default acceleration ceiling: 1000 units/s^2.
pub const DEFAULT_MAX_ACCELERATION: u64 = 1000000000;

/// Default acceleration-to-deceleration blending limit: 500 units/s^2.
pub const DEFAULT_MAX_ACCEL_TO_DECEL: u64 = 500000000;

/// Default square-corner velocity: 5 units/s.
pub const DEFAULT_SQUARE_CORNER_VELOCITY: u64 = 5000000;

/// Default instantaneous corner velocity: 1 unit/s.
pub const DEFAULT_INSTANT_CORNER_VELOCITY: u64 = 1000000;

/// One of the three motion axes a limiter can apply to.
#[derive(Clone, Copy, PartialEq, Eq, Structural, Debug)]
pub enum Axis {
    X,
    Y,
    Z,
}

/// A rule constraining velocity and acceleration for one axis or for the
/// extruder. The planner evaluates limiters in the order they were appended,
/// so the sequence is never reordered or deduplicated.
#[derive(Clone, Copy, PartialEq, Eq, Structural, Debug)]
pub enum Limiter {
    AxisLimiter { axis: Axis, max_velocity: u64, max_accel: u64 },
    ExtruderLimiter { max_velocity: u64, max_accel: u64 },
}

/// Firmware retraction behaviour; either fully populated or absent.
#[derive(Clone, Copy, PartialEq, Eq, Structural, Debug)]
pub struct RetractionOptions {
    pub retract_length: u64,
    pub unretract_extra_length: u64,
    pub unretract_speed: u64,
    pub retract_speed: u64,
    pub lift_z: u64,
}

/// The resolved set of motion limits handed to the downstream planner.
/// Mutated in place through the resolution pipeline, then handed off.
#[derive(Clone, PartialEq, Debug)]
pub struct LimitConfiguration {
    pub max_velocity: u64,
    pub max_acceleration: u64,
    pub max_accel_to_decel: u64,
    pub square_corner_velocity: u64,
    pub instant_corner_velocity: u64,
    pub firmware_retraction: Option<RetractionOptions>,
    pub limiters: Vec<Limiter>,
}

/// The mathematical value of a `LimitConfiguration`: the same fields with
/// the limiter list as a sequence.
#[verifier::ext_equal]
pub struct LimitsView {
    pub max_velocity: u64,
    pub max_acceleration: u64,
    pub max_accel_to_decel: u64,
    pub square_corner_velocity: u64,
    pub instant_corner_velocity: u64,
    pub firmware_retraction: Option<RetractionOptions>,
    pub limiters: Seq<Limiter>,
}

impl View for LimitConfiguration {
    type V = LimitsView;

    open spec fn view(&self) -> LimitsView {
        LimitsView {
            max_velocity: self.max_velocity,
            max_acceleration: self.max_acceleration,
            max_accel_to_decel: self.max_accel_to_decel,
            square_corner_velocity: self.square_corner_velocity,
            instant_corner_velocity: self.instant_corner_velocity,
            firmware_retraction: self.firmware_retraction,
            limiters: self.limiters@,
        }
    }
}

/// The cornering model: the instantaneous direction-change velocity bound
/// derived from the square-corner velocity parameter, namely
/// `scv * (sqrt(2) - 1)` computed in micro-units with truncation.
pub open spec fn corner_velocity_model(scv: u64) -> u64 {
    ((scv * CORNER_RATIO_MICRO) / (MICRO_PER_UNIT as int)) as u64
}

/// The built-in conservative default limit set: no limiters, no retraction.
pub open spec fn default_limits() -> LimitsView {
    LimitsView {
        max_velocity: DEFAULT_MAX_VELOCITY,
        max_acceleration: DEFAULT_MAX_ACCELERATION,
        max_accel_to_decel: DEFAULT_MAX_ACCEL_TO_DECEL,
        square_corner_velocity: DEFAULT_SQUARE_CORNER_VELOCITY,
        instant_corner_velocity: DEFAULT_INSTANT_CORNER_VELOCITY,
        limiters: Seq::empty(),
        firmware_retraction: None,
    }
}

/// Evaluates the cornering model. The result never exceeds the argument,
/// since the cornering ratio is below one.
pub fn derive_instant_corner_velocity(scv: u64) -> (r: u64)
    ensures
        r == corner_velocity_model(scv),
{
    proof {
        lemma_mul_inequality(scv as int, u64::MAX as int, CORNER_RATIO_MICRO as int);
        lemma_mul_is_commutative(scv as int, CORNER_RATIO_MICRO as int);
        lemma_mul_is_commutative(scv as int, MICRO_PER_UNIT as int);
        lemma_mul_inequality(CORNER_RATIO_MICRO as int, MICRO_PER_UNIT as int, scv as int);
        lemma_div_is_ordered(
            scv as int * CORNER_RATIO_MICRO as int,
            scv as int * MICRO_PER_UNIT as int,
            MICRO_PER_UNIT as int,
        );
        lemma_div_multiples_vanish(scv as int, MICRO_PER_UNIT as int);
    }
    let wide: u128 = (scv as u128) * (CORNER_RATIO_MICRO as u128);
    let q: u128 = wide / (MICRO_PER_UNIT as u128);
    q as u64
}

impl LimitConfiguration {
    /// Direct assignment of the global velocity ceiling; no range validation.
    pub fn set_max_velocity(&mut self, v: u64)
        ensures
            final(self)@ == (LimitsView { max_velocity: v, ..old(self)@ }),
    {
        self.max_velocity = v;
    }

    /// Direct assignment of the acceleration ceiling; no range validation.
    pub fn set_max_acceleration(&mut self, v: u64)
        ensures
            final(self)@ == (LimitsView { max_acceleration: v, ..old(self)@ }),
    {
        self.max_acceleration = v;
    }

    /// Direct assignment of the accel-to-decel blending limit.
    pub fn set_max_accel_to_decel(&mut self, v: u64)
        ensures
            final(self)@ == (LimitsView { max_accel_to_decel: v, ..old(self)@ }),
    {
        self.max_accel_to_decel = v;
    }

    /// Direct assignment of the instantaneous corner velocity, overriding
    /// any value previously derived from the square-corner velocity.
    pub fn set_instant_corner_velocity(&mut self, v: u64)
        ensures
            final(self)@ == (LimitsView { instant_corner_velocity: v, ..old(self)@ }),
    {
        self.instant_corner_velocity = v;
    }

    /// Assigns the square-corner velocity and recomputes the instantaneous
    /// corner velocity from it through the cornering model. Calling this
    /// after `set_instant_corner_velocity` silently overwrites the latter:
    /// the order of setter calls matters.
    pub fn set_square_corner_velocity(&mut self, v: u64)
        ensures
            final(self)@ == (LimitsView {
                square_corner_velocity: v,
                instant_corner_velocity: corner_velocity_model(v),
                ..old(self)@
            }),
    {
        self.square_corner_velocity = v;
        let icv = derive_instant_corner_velocity(v);
        self.instant_corner_velocity = icv;
    }
}

impl Default for LimitConfiguration {
    /// The conservative built-in defaults: no limiters, no retraction.
    fn default() -> (c: Self)
        ensures
            c@ == default_limits(),
    {
        let c = LimitConfiguration {
            max_velocity: DEFAULT_MAX_VELOCITY,
            max_acceleration: DEFAULT_MAX_ACCELERATION,
            max_accel_to_decel: DEFAULT_MAX_ACCEL_TO_DECEL,
            square_corner_velocity: DEFAULT_SQUARE_CORNER_VELOCITY,
            instant_corner_velocity: DEFAULT_INSTANT_CORNER_VELOCITY,
            firmware_retraction: None,
            limiters: Vec::new(),
        };
        proof {
            assert(c@ =~= default_limits());
        }
        c
    }
}

} // verus!

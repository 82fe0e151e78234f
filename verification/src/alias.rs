//! The alias resolver: maps a case- and synonym-varying override key to
//! exactly one canonical setter, and applies a canonical setter to the
//! limit model.

use vstd::prelude::*;
use crate::model::{corner_velocity_model, LimitConfiguration, LimitsView};
use crate::text::str_eq;

verus! {

/// The canonical setter an override key resolves to.
#[derive(Clone, Copy, PartialEq, Eq, Structural, Debug)]
pub enum LimitField {
    Acceleration,
    AccelToDecel,
    Velocity,
    SquareCornerVelocity,
    InstantCornerVelocity,
}

/// The dispatch table: every member of a canonical group maps to the same
/// setter; any other key resolves to nothing.
pub open spec fn canonical_field(k: Seq<char>) -> Option<LimitField> {
    if k == "max_acceleration"@ || k == "max_accel"@ || k == "accel"@ {
        Some(LimitField::Acceleration)
    } else if k == "max_accel_to_decel"@ || k == "accel_to_decel"@ || k == "a2d"@ {
        Some(LimitField::AccelToDecel)
    } else if k == "max_velocity"@ || k == "velocity"@ || k == "max_vel"@ || k == "vel"@ {
        Some(LimitField::Velocity)
    } else if k == "square_corner_velocity"@ || k == "scv"@ || k == "SCV"@ || k == "sqv"@
        || k == "SQV"@ {
        Some(LimitField::SquareCornerVelocity)
    } else if k == "instant_corner_velocity"@ || k == "icv"@ || k == "ICV"@ {
        Some(LimitField::InstantCornerVelocity)
    } else {
        None
    }
}

/// Resolves an override key through the dispatch table.
pub fn resolve_key(k: &str) -> (r: Option<LimitField>)
    ensures
        r == canonical_field(k@),
{
    if str_eq(k, "max_acceleration") || str_eq(k, "max_accel") || str_eq(k, "accel") {
        Some(LimitField::Acceleration)
    } else if str_eq(k, "max_accel_to_decel") || str_eq(k, "accel_to_decel") || str_eq(k, "a2d") {
        Some(LimitField::AccelToDecel)
    } else if str_eq(k, "max_velocity") || str_eq(k, "velocity") || str_eq(k, "max_vel")
        || str_eq(k, "vel") {
        Some(LimitField::Velocity)
    } else if str_eq(k, "square_corner_velocity") || str_eq(k, "scv") || str_eq(k, "SCV")
        || str_eq(k, "sqv") || str_eq(k, "SQV") {
        Some(LimitField::SquareCornerVelocity)
    } else if str_eq(k, "instant_corner_velocity") || str_eq(k, "icv") || str_eq(k, "ICV") {
        Some(LimitField::InstantCornerVelocity)
    } else {
        None
    }
}

/// The effect of one canonical setter on the limit model. Setting the
/// square-corner velocity also derives the instantaneous corner velocity;
/// every other setter touches its own field alone.
pub open spec fn apply_field(v: LimitsView, f: LimitField, x: u64) -> LimitsView {
    match f {
        LimitField::Acceleration => LimitsView { max_acceleration: x, ..v },
        LimitField::AccelToDecel => LimitsView { max_accel_to_decel: x, ..v },
        LimitField::Velocity => LimitsView { max_velocity: x, ..v },
        LimitField::SquareCornerVelocity => LimitsView {
            square_corner_velocity: x,
            instant_corner_velocity: corner_velocity_model(x),
            ..v
        },
        LimitField::InstantCornerVelocity => LimitsView { instant_corner_velocity: x, ..v },
    }
}

impl LimitConfiguration {
    /// Invokes the canonical setter `f` with the value `x`.
    pub fn set_field(&mut self, f: LimitField, x: u64)
        ensures
            final(self)@ == apply_field(old(self)@, f, x),
    {
        match f {
            LimitField::Acceleration => self.set_max_acceleration(x),
            LimitField::AccelToDecel => self.set_max_accel_to_decel(x),
            LimitField::Velocity => self.set_max_velocity(x),
            LimitField::SquareCornerVelocity => self.set_square_corner_velocity(x),
            LimitField::InstantCornerVelocity => self.set_instant_corner_velocity(x),
        }
    }
}

} // verus!

//! The remote config source: a live device's reported settings, already
//! fetched and read into plain values, are merged into the limit model.
//! Scalar fields are overwritten through the setters — square-corner
//! velocity first, deriving the instantaneous corner velocity, then the
//! extruder's instantaneous corner velocity over it, a two-step order that
//! is load-bearing. The retraction options are replaced wholesale when the
//! report carries a retraction block, and left untouched when it does not.
//! Limiters are appended, never replaced, so a second merge of the same
//! report accumulates duplicate entries by design.

use vstd::prelude::*;
use vstd::string::StringExecFns;
use crate::alias::{apply_field, LimitField};
use crate::model::{Axis, Limiter, LimitConfiguration, LimitsView, RetractionOptions};

verus! {

/// The mandatory and optional printer fields of a remote report.
#[derive(Clone, Copy, PartialEq, Eq, Debug)]
pub struct RemotePrinterSettings {
    pub max_velocity: u64,
    pub max_accel: u64,
    pub max_accel_to_decel: u64,
    pub square_corner_velocity: u64,
    pub max_x_velocity: Option<u64>,
    pub max_x_accel: Option<u64>,
    pub max_y_velocity: Option<u64>,
    pub max_y_accel: Option<u64>,
    pub max_z_velocity: Option<u64>,
    pub max_z_accel: Option<u64>,
}

/// The mandatory extruder fields of a remote report.
#[derive(Clone, Copy, PartialEq, Eq, Debug)]
pub struct RemoteExtruderSettings {
    pub max_extrude_only_velocity: u64,
    pub max_extrude_only_accel: u64,
    pub instantaneous_corner_velocity: u64,
}

/// The optional retraction block of a remote report; `lift_z` defaults to
/// zero when the block is present but the field absent.
#[derive(Clone, Copy, PartialEq, Eq, Debug)]
pub struct RemoteRetractionSettings {
    pub retract_length: u64,
    pub unretract_extra_length: u64,
    pub unretract_speed: u64,
    pub retract_speed: u64,
    pub lift_z: Option<u64>,
}

/// A remote device's reported settings, as plain values.
#[derive(Clone, Copy, PartialEq, Eq, Debug)]
pub struct RemoteSettings {
    pub printer: RemotePrinterSettings,
    pub extruder: RemoteExtruderSettings,
    pub firmware_retraction: Option<RemoteRetractionSettings>,
}

/// The retraction options a remote retraction block denotes.
pub open spec fn retraction_of(r: RemoteRetractionSettings) -> RetractionOptions {
    RetractionOptions {
        retract_length: r.retract_length,
        unretract_extra_length: r.unretract_extra_length,
        unretract_speed: r.unretract_speed,
        retract_speed: r.retract_speed,
        lift_z: match r.lift_z {
            Some(z) => z,
            None => 0,
        },
    }
}

/// The limiter entry one axis contributes: present exactly when both its
/// velocity and its acceleration are reported.
pub open spec fn axis_entry(a: Axis, v: Option<u64>, acc: Option<u64>) -> Seq<Limiter> {
    if v is Some && acc is Some {
        seq![Limiter::AxisLimiter { axis: a, max_velocity: v.unwrap(), max_accel: acc.unwrap() }]
    } else {
        Seq::empty()
    }
}

/// The axis limiters a report appends, in fixed X, Y, Z order.
pub open spec fn axis_limiters(p: RemotePrinterSettings) -> Seq<Limiter> {
    axis_entry(Axis::X, p.max_x_velocity, p.max_x_accel) + axis_entry(
        Axis::Y,
        p.max_y_velocity,
        p.max_y_accel,
    ) + axis_entry(Axis::Z, p.max_z_velocity, p.max_z_accel)
}

/// The one extruder limiter a report always appends.
pub open spec fn extruder_limiter(e: RemoteExtruderSettings) -> Limiter {
    Limiter::ExtruderLimiter {
        max_velocity: e.max_extrude_only_velocity,
        max_accel: e.max_extrude_only_accel,
    }
}

/// The merge of a remote report into the limit model: the scalar setters
/// in order — square-corner velocity deriving the instantaneous corner
/// velocity, then the extruder's value overwriting it — the retraction
/// options replaced wholesale where the report carries a block and left
/// unchanged where it does not, and the limiters appended.
pub open spec fn remote_merge(v: LimitsView, s: RemoteSettings) -> LimitsView {
    let v1 = apply_field(v, LimitField::Velocity, s.printer.max_velocity);
    let v2 = apply_field(v1, LimitField::Acceleration, s.printer.max_accel);
    let v3 = apply_field(v2, LimitField::AccelToDecel, s.printer.max_accel_to_decel);
    let v4 = apply_field(v3, LimitField::SquareCornerVelocity, s.printer.square_corner_velocity);
    let v5 = apply_field(
        v4,
        LimitField::InstantCornerVelocity,
        s.extruder.instantaneous_corner_velocity,
    );
    LimitsView {
        firmware_retraction: match s.firmware_retraction {
            Some(r) => Some(retraction_of(r)),
            None => v5.firmware_retraction,
        },
        limiters: v5.limiters + axis_limiters(s.printer) + seq![extruder_limiter(s.extruder)],
        ..v5
    }
}

/// The fixed query path appended to a device's base URL to reach its
/// status endpoint.
pub fn moonraker_query_url(base_url: &str) -> (r: String)
    ensures
        r@ == base_url@ + "/printer/objects/query?configfile=settings"@,
{
    let mut url = String::from_str(base_url);
    url.append("/printer/objects/query?configfile=settings");
    url
}

impl LimitConfiguration {
    /// Merges a remote report into the model, as `remote_merge` states.
    pub fn apply_remote(&mut self, s: &RemoteSettings)
        ensures
            final(self)@ == remote_merge(old(self)@, *s),
    {
        self.set_max_velocity(s.printer.max_velocity);
        self.set_max_acceleration(s.printer.max_accel);
        self.set_max_accel_to_decel(s.printer.max_accel_to_decel);
        self.set_square_corner_velocity(s.printer.square_corner_velocity);
        self.set_instant_corner_velocity(s.extruder.instantaneous_corner_velocity);
        if let Some(r) = s.firmware_retraction {
            self.firmware_retraction = Some(
                RetractionOptions {
                    retract_length: r.retract_length,
                    unretract_extra_length: r.unretract_extra_length,
                    unretract_speed: r.unretract_speed,
                    retract_speed: r.retract_speed,
                    lift_z: match r.lift_z {
                        Some(z) => z,
                        None => 0,
                    },
                },
            );
        }
        if s.printer.max_x_velocity.is_some() && s.printer.max_x_accel.is_some() {
            self.limiters.push(
                Limiter::AxisLimiter {
                    axis: Axis::X,
                    max_velocity: s.printer.max_x_velocity.unwrap(),
                    max_accel: s.printer.max_x_accel.unwrap(),
                },
            );
        }
        if s.printer.max_y_velocity.is_some() && s.printer.max_y_accel.is_some() {
            self.limiters.push(
                Limiter::AxisLimiter {
                    axis: Axis::Y,
                    max_velocity: s.printer.max_y_velocity.unwrap(),
                    max_accel: s.printer.max_y_accel.unwrap(),
                },
            );
        }
        if s.printer.max_z_velocity.is_some() && s.printer.max_z_accel.is_some() {
            self.limiters.push(
                Limiter::AxisLimiter {
                    axis: Axis::Z,
                    max_velocity: s.printer.max_z_velocity.unwrap(),
                    max_accel: s.printer.max_z_accel.unwrap(),
                },
            );
        }
        self.limiters.push(extruder_limiter_exec(&s.extruder));
        proof {
            assert(self@.limiters =~= old(self)@.limiters + axis_limiters(s.printer) + seq![
                extruder_limiter(s.extruder),
            ]);
            assert(self@ =~= remote_merge(old(self)@, *s));
        }
    }
}

/// Builds the extruder limiter entry of a report.
fn extruder_limiter_exec(e: &RemoteExtruderSettings) -> (r: Limiter)
    ensures
        r == extruder_limiter(*e),
{
    Limiter::ExtruderLimiter {
        max_velocity: e.max_extrude_only_velocity,
        max_accel: e.max_extrude_only_accel,
    }
}

} // verus!

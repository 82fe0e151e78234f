//! The local config source: a base document's fields, already read from
//! its lenient textual form into plain optional values, are folded over
//! the built-in defaults by direct assignment, and the square-corner
//! velocity setter is then re-applied once so the derived instantaneous
//! corner velocity is recomputed — direct field assignment bypasses the
//! setter logic, so this fix-up is load-bearing.

use vstd::prelude::*;
use crate::alias::{apply_field, LimitField};
use crate::model::{default_limits, Limiter, LimitConfiguration, LimitsView, RetractionOptions};

verus! {

/// The fields a base configuration document may set; an absent field
/// leaves the built-in default in place.
#[derive(Clone, PartialEq, Debug)]
pub struct LocalDocument {
    pub max_velocity: Option<u64>,
    pub max_acceleration: Option<u64>,
    pub max_accel_to_decel: Option<u64>,
    pub square_corner_velocity: Option<u64>,
    pub instant_corner_velocity: Option<u64>,
    pub firmware_retraction: Option<RetractionOptions>,
    pub limiters: Option<Vec<Limiter>>,
}

/// The mathematical value of a `LocalDocument`.
pub struct DocumentView {
    pub max_velocity: Option<u64>,
    pub max_acceleration: Option<u64>,
    pub max_accel_to_decel: Option<u64>,
    pub square_corner_velocity: Option<u64>,
    pub instant_corner_velocity: Option<u64>,
    pub firmware_retraction: Option<RetractionOptions>,
    pub limiters: Option<Seq<Limiter>>,
}

impl View for LocalDocument {
    type V = DocumentView;

    open spec fn view(&self) -> DocumentView {
        DocumentView {
            max_velocity: self.max_velocity,
            max_acceleration: self.max_acceleration,
            max_accel_to_decel: self.max_accel_to_decel,
            square_corner_velocity: self.square_corner_velocity,
            instant_corner_velocity: self.instant_corner_velocity,
            firmware_retraction: self.firmware_retraction,
            limiters: match self.limiters {
                Some(l) => Some(l@),
                None => None,
            },
        }
    }
}

/// An optional field's value, or the default where the document is silent.
pub open spec fn field_or(o: Option<u64>, dflt: u64) -> u64 {
    match o {
        Some(x) => x,
        None => dflt,
    }
}

/// The base limit model a document yields: every present field assigned
/// over the defaults, then the square-corner velocity setter re-applied,
/// so the instantaneous corner velocity is always the derived one — also
/// where the document assigned it directly.
pub open spec fn document_limits(d: DocumentView) -> LimitsView {
    let dflt = default_limits();
    let filled = LimitsView {
        max_velocity: field_or(d.max_velocity, dflt.max_velocity),
        max_acceleration: field_or(d.max_acceleration, dflt.max_acceleration),
        max_accel_to_decel: field_or(d.max_accel_to_decel, dflt.max_accel_to_decel),
        square_corner_velocity: field_or(d.square_corner_velocity, dflt.square_corner_velocity),
        instant_corner_velocity: field_or(d.instant_corner_velocity, dflt.instant_corner_velocity),
        firmware_retraction: d.firmware_retraction,
        limiters: match d.limiters {
            Some(l) => l,
            None => Seq::empty(),
        },
    };
    apply_field(filled, LimitField::SquareCornerVelocity, filled.square_corner_velocity)
}

/// Copies a limiter list.
fn copy_limiters(src: &Vec<Limiter>) -> (r: Vec<Limiter>)
    ensures
        r@ == src@,
{
    let mut r: Vec<Limiter> = Vec::new();
    let mut i: usize = 0;
    while i < src.len()
        invariant
            0 <= i <= src.len(),
            r@ == src@.take(i as int),
        decreases src.len() - i,
    {
        r.push(src[i]);
        proof {
            assert(r@ =~= src@.take(i + 1));
        }
        i += 1;
    }
    proof {
        assert(src@.take(src@.len() as int) =~= src@);
    }
    r
}

/// Builds the base limit model from a document: direct assignment of every
/// present field, then the square-corner velocity fix-up, run exactly once.
pub fn from_document(d: &LocalDocument) -> (c: LimitConfiguration)
    ensures
        c@ == document_limits(d@),
{
    let mut c = LimitConfiguration::default();
    if let Some(v) = d.max_velocity {
        c.max_velocity = v;
    }
    if let Some(v) = d.max_acceleration {
        c.max_acceleration = v;
    }
    if let Some(v) = d.max_accel_to_decel {
        c.max_accel_to_decel = v;
    }
    if let Some(v) = d.square_corner_velocity {
        c.square_corner_velocity = v;
    }
    if let Some(v) = d.instant_corner_velocity {
        c.instant_corner_velocity = v;
    }
    c.firmware_retraction = d.firmware_retraction;
    if let Some(l) = &d.limiters {
        c.limiters = copy_limiters(l);
    }
    let scv = c.square_corner_velocity;
    c.set_square_corner_velocity(scv);
    proof {
        assert(c@ =~= document_limits(d@));
    }
    c
}

} // verus!

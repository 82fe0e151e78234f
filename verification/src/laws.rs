//! Laws of the resolution pipeline: the derived-field fix-up, the
//! precedence order of the three sources, alias equivalence, and the
//! deliberate accumulation of limiter entries across repeated remote
//! merges.

use vstd::prelude::*;
use crate::alias::{apply_field, canonical_field, LimitField};
use crate::local::{document_limits, field_or, DocumentView};
use crate::loader::merged_limits;
use crate::local::LocalDocument;
use crate::model::{
    corner_velocity_model, default_limits, LimitsView, DEFAULT_INSTANT_CORNER_VELOCITY,
    DEFAULT_MAX_ACCELERATION, DEFAULT_MAX_ACCEL_TO_DECEL, DEFAULT_MAX_VELOCITY,
    DEFAULT_SQUARE_CORNER_VELOCITY,
};
use crate::numbers::micros_of;
use crate::overrides::{
    fold_overrides, has_separator, override_key, override_value, step_override,
};
use crate::remote::{axis_limiters, extruder_limiter, remote_merge, retraction_of, RemoteSettings};

verus! {

/// The field of the limit model that a canonical setter assigns.
pub open spec fn field_value(v: LimitsView, f: LimitField) -> u64 {
    match f {
        LimitField::Acceleration => v.max_acceleration,
        LimitField::AccelToDecel => v.max_accel_to_decel,
        LimitField::Velocity => v.max_velocity,
        LimitField::SquareCornerVelocity => v.square_corner_velocity,
        LimitField::InstantCornerVelocity => v.instant_corner_velocity,
    }
}

/// The value a remote report carries for a canonical field.
pub open spec fn remote_field(s: RemoteSettings, f: LimitField) -> u64 {
    match f {
        LimitField::Acceleration => s.printer.max_accel,
        LimitField::AccelToDecel => s.printer.max_accel_to_decel,
        LimitField::Velocity => s.printer.max_velocity,
        LimitField::SquareCornerVelocity => s.printer.square_corner_velocity,
        LimitField::InstantCornerVelocity => s.extruder.instantaneous_corner_velocity,
    }
}

/// The value a base document yields for a canonical field: its own where
/// present, the built-in default where silent.
pub open spec fn document_field(d: DocumentView, f: LimitField) -> u64 {
    match f {
        LimitField::Acceleration => field_or(d.max_acceleration, DEFAULT_MAX_ACCELERATION),
        LimitField::AccelToDecel => field_or(d.max_accel_to_decel, DEFAULT_MAX_ACCEL_TO_DECEL),
        LimitField::Velocity => field_or(d.max_velocity, DEFAULT_MAX_VELOCITY),
        LimitField::SquareCornerVelocity => field_or(
            d.square_corner_velocity,
            DEFAULT_SQUARE_CORNER_VELOCITY,
        ),
        LimitField::InstantCornerVelocity => field_or(
            d.instant_corner_velocity,
            DEFAULT_INSTANT_CORNER_VELOCITY,
        ),
    }
}

/// Whether an override string sets the canonical field `f`.
pub open spec fn sets_field(s: Seq<char>, f: LimitField) -> bool {
    has_separator(s) && canonical_field(override_key(s)) == Some(f)
}

/// Loading a base document leaves the instantaneous corner velocity equal
/// to the cornering model of the loaded square-corner velocity: the fix-up
/// step runs exactly once, after deserialization, whatever the document
/// held — also where it assigned the instantaneous value directly.
pub proof fn lemma_document_fixup(d: DocumentView)
    ensures
        document_limits(d).instant_corner_velocity == corner_velocity_model(
            document_limits(d).square_corner_velocity,
        ),
{
}

/// A source that does not touch a field leaves it unchanged: overrides
/// that never set `f` — nor, for the instantaneous corner velocity, the
/// square-corner velocity it is derived from — preserve the field.
pub proof fn lemma_overrides_leave_field(
    v: LimitsView,
    list: Seq<Seq<char>>,
    w: LimitsView,
    f: LimitField,
)
    requires
        fold_overrides(v, list) == Some(w),
        forall|j: int| 0 <= j < list.len() ==> !sets_field(#[trigger] list[j], f),
        f is InstantCornerVelocity ==> forall|j: int|
            0 <= j < list.len() ==> !sets_field(
                #[trigger] list[j],
                LimitField::SquareCornerVelocity,
            ),
    ensures
        field_value(w, f) == field_value(v, f),
    decreases list.len(),
{
    if list.len() > 0 {
        let l2 = list.drop_last();
        assert(forall|j: int| 0 <= j < l2.len() ==> l2[j] == list[j]);
        let u = fold_overrides(v, l2).unwrap();
        lemma_overrides_leave_field(v, l2, u, f);
        assert(list[list.len() - 1] == list.last());
        assert(step_override(u, list.last()) == Some(w));
    }
}

/// The last override that sets a field wins: after the whole list, the
/// field holds that override's parsed value.
pub proof fn lemma_last_override_wins(
    v: LimitsView,
    list: Seq<Seq<char>>,
    w: LimitsView,
    f: LimitField,
    i: int,
)
    requires
        fold_overrides(v, list) == Some(w),
        0 <= i < list.len(),
        sets_field(list[i], f),
        forall|j: int| i < j < list.len() ==> !sets_field(#[trigger] list[j], f),
        f is InstantCornerVelocity ==> forall|j: int|
            i < j < list.len() ==> !sets_field(
                #[trigger] list[j],
                LimitField::SquareCornerVelocity,
            ),
    ensures
        field_value(w, f) == micros_of(override_value(list[i])).unwrap(),
    decreases list.len(),
{
    let l2 = list.drop_last();
    assert(forall|j: int| 0 <= j < l2.len() ==> l2[j] == list[j]);
    let u = fold_overrides(v, l2).unwrap();
    assert(list[list.len() - 1] == list.last());
    assert(step_override(u, list.last()) == Some(w));
    if i == list.len() - 1 {
        assert(micros_of(override_value(list[i])) is Some);
    } else {
        lemma_last_override_wins(v, l2, u, f, i);
    }
}

/// Precedence across the three sources, before overrides: with a remote
/// report the field holds the report's value, otherwise the document's
/// where one was given, otherwise the built-in default. The instantaneous
/// corner velocity is left out: loading a document re-derives it from the
/// square-corner velocity, as `lemma_document_fixup` states.
pub proof fn lemma_source_precedence(
    local: Option<&LocalDocument>,
    remote: Option<&RemoteSettings>,
    f: LimitField,
)
    requires
        !(f is InstantCornerVelocity),
    ensures
        field_value(merged_limits(local, remote), f) == (match remote {
            Some(s) => remote_field(*s, f),
            None => match local {
                Some(d) => document_field(d@, f),
                None => field_value(default_limits(), f),
            },
        }),
{
}

/// The precedence law end to end, for a field no override touches: after
/// the whole pipeline the field holds the remote report's value, else the
/// document's where one was given, else the built-in default — the last
/// source that actually set it.
pub proof fn lemma_pipeline_precedence(
    local: Option<&LocalDocument>,
    remote: Option<&RemoteSettings>,
    list: Seq<Seq<char>>,
    w: LimitsView,
    f: LimitField,
)
    requires
        fold_overrides(merged_limits(local, remote), list) == Some(w),
        !(f is InstantCornerVelocity),
        forall|j: int| 0 <= j < list.len() ==> !sets_field(#[trigger] list[j], f),
    ensures
        field_value(w, f) == (match remote {
            Some(s) => remote_field(*s, f),
            None => match local {
                Some(d) => document_field(d@, f),
                None => field_value(default_limits(), f),
            },
        }),
{
    lemma_overrides_leave_field(merged_limits(local, remote), list, w, f);
    lemma_source_precedence(local, remote, f);
}

/// Overrides never touch the retraction options: however many are
/// applied, the options stand as the earlier sources left them.
pub proof fn lemma_overrides_leave_retraction(v: LimitsView, list: Seq<Seq<char>>, w: LimitsView)
    requires
        fold_overrides(v, list) == Some(w),
    ensures
        w.firmware_retraction == v.firmware_retraction,
    decreases list.len(),
{
    if list.len() > 0 {
        let l2 = list.drop_last();
        let u = fold_overrides(v, l2).unwrap();
        lemma_overrides_leave_retraction(v, l2, u);
        assert(step_override(u, list.last()) == Some(w));
    }
}

/// The precedence law for the retraction options, end to end: a remote
/// report replaces them only where it carries a retraction block; without
/// one — or without a remote report at all — the document's configuration
/// stands, or none where no source set any. Overrides never touch them.
pub proof fn lemma_retraction_precedence(
    local: Option<&LocalDocument>,
    remote: Option<&RemoteSettings>,
    list: Seq<Seq<char>>,
    w: LimitsView,
)
    requires
        fold_overrides(merged_limits(local, remote), list) == Some(w),
    ensures
        w.firmware_retraction == (match remote {
            Some(s) => match s.firmware_retraction {
                Some(r) => Some(retraction_of(r)),
                None => match local {
                    Some(d) => d@.firmware_retraction,
                    None => None,
                },
            },
            None => match local {
                Some(d) => d@.firmware_retraction,
                None => None,
            },
        }),
{
    lemma_overrides_leave_retraction(merged_limits(local, remote), list, w);
}

/// Alias equivalence: two overrides whose keys resolve to the same
/// canonical setter and whose values agree have the same effect.
pub proof fn lemma_alias_equivalence(v: LimitsView, s1: Seq<char>, s2: Seq<char>)
    requires
        has_separator(s1),
        has_separator(s2),
        canonical_field(override_key(s1)) == canonical_field(override_key(s2)),
        override_value(s1) == override_value(s2),
    ensures
        step_override(v, s1) == step_override(v, s2),
{
}

/// The acceleration aliases resolve to one setter: `max_accel` and
/// `accel` are the same override key.
pub proof fn lemma_accel_aliases()
    ensures
        canonical_field("max_accel"@) == Some(LimitField::Acceleration),
        canonical_field("accel"@) == Some(LimitField::Acceleration),
{
}

/// Limiter accumulation is deliberately not idempotent: merging the same
/// remote report twice appends its axis and extruder entries twice, in
/// order, duplicates and all.
pub proof fn lemma_remote_merge_accumulates(v: LimitsView, s: RemoteSettings)
    ensures
        remote_merge(remote_merge(v, s), s).limiters =~= v.limiters + axis_limiters(s.printer)
            + seq![extruder_limiter(s.extruder)] + axis_limiters(s.printer) + seq![
            extruder_limiter(s.extruder),
        ],
{
}

} // verus!


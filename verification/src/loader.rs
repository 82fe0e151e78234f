//! The resolution pipeline: a base document or the built-in defaults,
//! then a remote device's report merged over it, then the user's
//! `key:value` overrides, applied in order with highest precedence. The
//! finished model is handed off as one immutable value; diagnostics for
//! dropped overrides are returned alongside it rather than printed.

use vstd::prelude::*;
use crate::alias::{apply_field, canonical_field};
use crate::local::{document_limits, from_document, LocalDocument};
use crate::model::{default_limits, LimitConfiguration, LimitsView};
use crate::numbers::micros_of;
use crate::overrides::{
    fatal_override_error, fold_overrides, lemma_fold_none_extends, split_override, step_override,
    unknown_overrides, ConfigError, OverrideOutcome,
};
use crate::remote::{remote_merge, RemoteSettings};

verus! {

/// Carries the limit model through the resolution pipeline.
pub struct Loader {
    pub limits: LimitConfiguration,
}

impl Default for Loader {
    /// A loader holding the built-in default limits.
    fn default() -> (l: Loader)
        ensures
            l.limits@ == default_limits(),
    {
        Loader { limits: LimitConfiguration::default() }
    }
}

/// A finished resolution: the limit model, and the raw override strings
/// that were dropped as unrecognized, one diagnostic each.
pub struct Resolution {
    pub limits: LimitConfiguration,
    pub skipped: Vec<String>,
}

/// The model before overrides: the document's limits — or the built-in
/// defaults without a document — with the remote report, if any, merged
/// over them.
pub open spec fn merged_limits(
    local: Option<&LocalDocument>,
    remote: Option<&RemoteSettings>,
) -> LimitsView {
    let base = match local {
        Some(d) => document_limits(d@),
        None => default_limits(),
    };
    match remote {
        Some(s) => remote_merge(base, *s),
        None => base,
    }
}

/// The override strings as character sequences, in the order supplied.
pub open spec fn override_list(config_overrides: Option<Vec<String>>) -> Seq<Seq<char>> {
    match config_overrides {
        Some(v) => v.deep_view(),
        None => Seq::empty(),
    }
}

impl Loader {
    /// Applies one key/value override to the limits: an unknown key is
    /// reported and skipped, a malformed value for a recognized key is a
    /// fatal error, and in either case the limits are left untouched.
    pub fn apply_override(&mut self, override_property: String, override_value: String) -> (r:
        Result<OverrideOutcome, ConfigError>)
        ensures
            match r {
                Ok(OverrideOutcome::UnknownKey) => canonical_field(override_property@) is None
                    && *final(self) == *old(self),
                Ok(OverrideOutcome::Applied) => canonical_field(override_property@) is Some
                    && micros_of(override_value@) is Some && final(self).limits@ == apply_field(
                    old(self).limits@,
                    canonical_field(override_property@).unwrap(),
                    micros_of(override_value@).unwrap(),
                ),
                Err(e) => match e {
                    ConfigError::MalformedValue { key, value } => canonical_field(
                        override_property@,
                    ) is Some && micros_of(override_value@) is None && key@ == override_property@
                        && value@ == override_value@ && *final(self) == *old(self),
                    _ => false,
                },
            },
    {
        match crate::alias::resolve_key(override_property.as_str()) {
            None => Ok(OverrideOutcome::UnknownKey),
            Some(f) => match crate::numbers::parse_micros(override_value.as_str()) {
                None => Err(
                    ConfigError::MalformedValue { key: override_property, value: override_value },
                ),
                Some(x) => {
                    self.limits.set_field(f, x);
                    Ok(OverrideOutcome::Applied)
                },
            },
        }
    }

    /// Merges a fetched remote report into the loader's limits.
    pub fn moonraker_config(&mut self, settings: &RemoteSettings)
        ensures
            final(self).limits@ == remote_merge(old(self).limits@, *settings),
    {
        self.limits.apply_remote(settings);
    }

    /// Runs the whole pipeline and hands the finished model off. Whatever
    /// limits the loader already held are replaced, not merged. A fatal
    /// override — no separator, or a malformed value for a recognized key
    /// — aborts the resolution with the error describing that override.
    pub fn load_config(
        self,
        local: Option<&LocalDocument>,
        remote: Option<&RemoteSettings>,
        config_overrides: Option<Vec<String>>,
    ) -> (r: Result<Resolution, ConfigError>)
        ensures
            match r {
                Ok(res) => fold_overrides(
                    merged_limits(local, remote),
                    override_list(config_overrides),
                ) == Some(res.limits@) && res.skipped.deep_view() == unknown_overrides(
                    override_list(config_overrides),
                ),
                Err(e) => ({
                    let list = override_list(config_overrides);
                    let base = merged_limits(local, remote);
                    fold_overrides(base, list) is None && exists|i: int|
                        0 <= i < list.len() && (#[trigger] fold_overrides(
                            base,
                            list.take(i),
                        )) is Some && step_override(
                            fold_overrides(base, list.take(i)).unwrap(),
                            list[i],
                        ) is None && fatal_override_error(list[i], e)
                }),
            },
    {
        let ghost list = override_list(config_overrides);
        let ghost base = merged_limits(local, remote);
        let mut this = self;
        this.limits = match local {
            Some(d) => from_document(d),
            None => LimitConfiguration::default(),
        };
        if let Some(s) = remote {
            this.moonraker_config(s);
        }
        proof {
            assert(this.limits@ == base);
        }
        let mut skipped: Vec<String> = Vec::new();
        match &config_overrides {
            None => {
                proof {
                    assert(skipped.deep_view() =~= Seq::<Seq<char>>::empty());
                }
                Ok(Resolution { limits: this.limits, skipped })
            },
            Some(ov) => {
                let mut idx: usize = 0;
                while idx < ov.len()
                    invariant
                        0 <= idx <= ov.len(),
                        list == ov.deep_view(),
                        list == override_list(config_overrides),
                        base == merged_limits(local, remote),
                        list.len() == ov.len(),
                        fold_overrides(base, list.take(idx as int)) == Some(this.limits@),
                        skipped.deep_view() == unknown_overrides(list.take(idx as int)),
                    decreases ov.len() - idx,
                {
                    let s = &ov[idx];
                    proof {
                        assert(list[idx as int] == s@);
                        assert(list.take(idx + 1).drop_last() =~= list.take(idx as int));
                        assert(list.take(idx + 1).last() == list[idx as int]);
                    }
                    let ghost cur = this.limits@;
                    match split_override(s.as_str()) {
                        None => {
                            let e = ConfigError::MissingSeparator { input: s.clone() };
                            proof {
                                assert(step_override(cur, list[idx as int]) is None);
                                assert(fold_overrides(base, list.take(idx + 1)) is None);
                                lemma_fold_none_extends(base, list, idx + 1);
                                assert(fatal_override_error(list[idx as int], e));
                            }
                            return Err(e);
                        },
                        Some((k, v)) => {
                            match this.apply_override(k.to_owned(), v.to_owned()) {
                                Ok(OverrideOutcome::UnknownKey) => {
                                    skipped.push(s.clone());
                                    proof {
                                        assert(step_override(cur, list[idx as int]) == Some(cur));
                                        assert(skipped.deep_view() =~= unknown_overrides(
                                            list.take(idx + 1),
                                        ));
                                    }
                                },
                                Ok(OverrideOutcome::Applied) => {
                                    proof {
                                        assert(step_override(cur, list[idx as int]) == Some(
                                            this.limits@,
                                        ));
                                    }
                                },
                                Err(e) => {
                                    proof {
                                        assert(step_override(cur, list[idx as int]) is None);
                                        assert(fold_overrides(base, list.take(idx + 1)) is None);
                                        lemma_fold_none_extends(base, list, idx + 1);
                                        assert(fatal_override_error(list[idx as int], e));
                                    }
                                    return Err(e);
                                },
                            }
                        },
                    }
                    idx += 1;
                }
                proof {
                    assert(list.take(list.len() as int) =~= list);
                }
                Ok(Resolution { limits: this.limits, skipped })
            },
        }
    }
}

} // verus!

//! The override merger: `key:value` strings applied last, with highest
//! precedence. A string is split at its first colon; the key runs through
//! the alias resolver and the value through the decimal parser. An unknown
//! key is skipped with a diagnostic; a missing separator or a malformed
//! value for a recognized key is fatal.

use vstd::prelude::*;
use vstd::string::StrSliceExecFns;
use crate::alias::{apply_field, canonical_field};
use crate::model::LimitsView;
use crate::numbers::micros_of;
use crate::text::{find_char, first_index_of, lemma_first_index_of};

verus! {

/// A fatal error of the resolution pipeline.
#[derive(Clone, PartialEq, Eq, Debug)]
pub enum ConfigError {
    /// An override string without the `:` separator.
    MissingSeparator { input: String },
    /// A recognized key whose value is not a well-formed decimal: a plain
    /// nonnegative literal such as `300` or `5.0` — a sign, exponent
    /// notation or an out-of-range value is rejected too.
    MalformedValue { key: String, value: String },
}

/// What a single override did to the model.
#[derive(Clone, Copy, PartialEq, Eq, Structural, Debug)]
pub enum OverrideOutcome {
    /// The key resolved to a canonical setter and the value was applied.
    Applied,
    /// The key matched no alias; the model is untouched.
    UnknownKey,
}

/// Whether the override string has a `:` separator at all.
pub open spec fn has_separator(s: Seq<char>) -> bool {
    first_index_of(s, ':') is Some
}

/// The key of an override string: everything before the first colon.
pub open spec fn override_key(s: Seq<char>) -> Seq<char>
    recommends
        has_separator(s),
{
    s.take(first_index_of(s, ':').unwrap())
}

/// The value of an override string: everything after the first colon,
/// further colons included.
pub open spec fn override_value(s: Seq<char>) -> Seq<char>
    recommends
        has_separator(s),
{
    s.skip(first_index_of(s, ':').unwrap() + 1)
}

/// Whether an override is dropped as unrecognized: it splits, but its key
/// matches no alias.
pub open spec fn is_unknown_override(s: Seq<char>) -> bool {
    has_separator(s) && canonical_field(override_key(s)) is None
}

/// The effect of one override string on the model: nothing on a fatal
/// error, the model untouched for an unknown key, and the canonical
/// setter's effect otherwise.
pub open spec fn step_override(v: LimitsView, s: Seq<char>) -> Option<LimitsView> {
    if !has_separator(s) {
        None
    } else {
        match canonical_field(override_key(s)) {
            None => Some(v),
            Some(f) => match micros_of(override_value(s)) {
                None => None,
                Some(x) => Some(apply_field(v, f, x)),
            },
        }
    }
}

/// The model after a list of overrides, applied in the order supplied, so
/// that a later override for the same canonical key wins; nothing if any
/// override is fatal.
pub open spec fn fold_overrides(v: LimitsView, list: Seq<Seq<char>>) -> Option<LimitsView>
    decreases list.len(),
{
    if list.len() == 0 {
        Some(v)
    } else {
        match fold_overrides(v, list.drop_last()) {
            None => None,
            Some(w) => step_override(w, list.last()),
        }
    }
}

/// The overrides of a list that are dropped as unrecognized, in order.
pub open spec fn unknown_overrides(list: Seq<Seq<char>>) -> Seq<Seq<char>>
    decreases list.len(),
{
    if list.len() == 0 {
        Seq::empty()
    } else {
        let rest = unknown_overrides(list.drop_last());
        if is_unknown_override(list.last()) {
            rest.push(list.last())
        } else {
            rest
        }
    }
}

/// Once a prefix of the override list is fatal, the whole list is.
pub proof fn lemma_fold_none_extends(v: LimitsView, list: Seq<Seq<char>>, k: int)
    requires
        0 <= k <= list.len(),
        fold_overrides(v, list.take(k)) is None,
    ensures
        fold_overrides(v, list) is None,
    decreases list.len() - k,
{
    if k == list.len() {
        assert(list.take(k) =~= list);
    } else {
        assert(list.take(k + 1).drop_last() =~= list.take(k));
        lemma_fold_none_extends(v, list, k + 1);
    }
}

/// Whether the fatal error `e` correctly describes the override string `s`.
pub open spec fn fatal_override_error(s: Seq<char>, e: ConfigError) -> bool {
    match e {
        ConfigError::MissingSeparator { input } => input@ == s && !has_separator(s),
        ConfigError::MalformedValue { key, value } => has_separator(s) && key@ == override_key(s)
            && value@ == override_value(s) && canonical_field(override_key(s)) is Some
            && micros_of(override_value(s)) is None,
    }
}

/// Splits an override string at its first colon into key and value.
pub fn split_override(s: &str) -> (r: Option<(&str, &str)>)
    ensures
        match r {
            Some(kv) => has_separator(s@) && kv.0@ == override_key(s@) && kv.1@ == override_value(
                s@,
            ),
            None => !has_separator(s@),
        },
{
    let n = s.unicode_len();
    match find_char(s, ':') {
        None => None,
        Some(i) => {
            proof {
                lemma_first_index_of(s@, ':');
            }
            let k = s.substring_char(0, i);
            let v = s.substring_char(i + 1, n);
            proof {
                assert(k@ =~= override_key(s@));
                assert(v@ =~= override_value(s@));
            }
            Some((k, v))
        },
    }
}

} // verus!

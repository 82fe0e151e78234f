//! Parsing of override values: a decimal literal such as `300` or `5.0`
//! is turned into micro-units. The grammar is digits with at most one
//! decimal point and at least one digit; fraction digits beyond the sixth
//! are truncated, since values are kept to millionth precision. Anything
//! else, and any value too large for the model, parses to nothing.

use vstd::prelude::*;
use vstd::arithmetic::mul::{lemma_mul_inequality, lemma_mul_is_commutative, lemma_mul_nonnegative};
use vstd::string::StrSliceExecFns;
use crate::model::MICRO_PER_UNIT;
use crate::text::{find_char, first_index_of};

verus! {

/// Whether `c` is one of the decimal digits `0` through `9`.
pub open spec fn is_digit(c: char) -> bool {
    48 <= c as u32 && c as u32 <= 57
}

/// The numeric value of a digit character.
pub open spec fn digit_value(c: char) -> int {
    c as u32 - 48
}

/// Whether every character of `s` is a decimal digit.
pub open spec fn all_digits(s: Seq<char>) -> bool {
    forall|i: int| 0 <= i < s.len() ==> is_digit(s[i])
}

/// The value of a digit string read in base ten; zero for the empty string.
pub open spec fn digits_value(s: Seq<char>) -> int
    decreases s.len(),
{
    if s.len() == 0 {
        0
    } else {
        digits_value(s.drop_last()) * 10 + digit_value(s.last())
    }
}

/// Ten to the power `n`.
pub open spec fn pow10(n: nat) -> int
    decreases n,
{
    if n == 0 {
        1
    } else {
        10 * pow10((n - 1) as nat)
    }
}

/// The integer and fraction parts of a decimal literal, split at the first
/// decimal point; without a point the whole string is the integer part.
pub open spec fn decimal_parts(s: Seq<char>) -> (Seq<char>, Seq<char>) {
    match first_index_of(s, '.') {
        None => (s, Seq::empty()),
        Some(i) => (s.take(i), s.skip(i + 1)),
    }
}

/// The grammar of an override value: both parts all digits (so a second
/// point is malformed) and at least one digit somewhere.
pub open spec fn well_formed_decimal(s: Seq<char>) -> bool {
    all_digits(decimal_parts(s).0) && all_digits(decimal_parts(s).1)
        && decimal_parts(s).0.len() + decimal_parts(s).1.len() > 0
}

/// The micro-unit contribution of the fraction part: its first six digits,
/// padded with zeros up to millionths.
pub open spec fn fraction_micros(fp: Seq<char>) -> int {
    if fp.len() >= 6 {
        digits_value(fp.take(6))
    } else {
        digits_value(fp) * pow10((6 - fp.len()) as nat)
    }
}

/// The exact micro-unit value a well-formed decimal literal denotes.
pub open spec fn decimal_value_micros(s: Seq<char>) -> int {
    digits_value(decimal_parts(s).0) * MICRO_PER_UNIT + fraction_micros(decimal_parts(s).1)
}

/// What parsing an override value yields: the micro-unit count, or nothing
/// when the literal is malformed or its value does not fit the model.
/// The grammar is deliberately narrower than a general floating-point
/// literal: a safety limit is a plain nonnegative decimal, so a sign,
/// exponent notation (`1e3`), infinities and not-a-number are all
/// malformed here, and malformed means fatal for the run.
pub open spec fn micros_of(s: Seq<char>) -> Option<u64> {
    if well_formed_decimal(s) && decimal_value_micros(s) <= u64::MAX {
        Some(decimal_value_micros(s) as u64)
    } else {
        None
    }
}

proof fn lemma_digits_nonneg(s: Seq<char>)
    requires
        all_digits(s),
    ensures
        digits_value(s) >= 0,
    decreases s.len(),
{
    if s.len() > 0 {
        assert(is_digit(s.last()));
        lemma_digits_nonneg(s.drop_last());
    }
}

proof fn lemma_pow10_pos(n: nat)
    ensures
        pow10(n) >= 1,
    decreases n,
{
    if n > 0 {
        lemma_pow10_pos((n - 1) as nat);
    }
}

proof fn lemma_pow10_mono(a: nat, b: nat)
    requires
        a <= b,
    ensures
        pow10(a) <= pow10(b),
    decreases b,
{
    if a < b {
        lemma_pow10_mono(a, (b - 1) as nat);
        lemma_pow10_pos((b - 1) as nat);
    }
}

proof fn lemma_digits_upper(s: Seq<char>)
    requires
        all_digits(s),
    ensures
        digits_value(s) < pow10(s.len()),
    decreases s.len(),
{
    if s.len() > 0 {
        assert(is_digit(s.last()));
        lemma_digits_upper(s.drop_last());
    }
}

proof fn lemma_digits_prefix_le(s: Seq<char>, k: int)
    requires
        all_digits(s),
        0 <= k <= s.len(),
    ensures
        digits_value(s.take(k)) <= digits_value(s),
    decreases s.len() - k,
{
    if k == s.len() {
        assert(s.take(k) =~= s);
    } else {
        assert(s.take(k + 1).drop_last() =~= s.take(k));
        assert(s.take(k + 1).last() == s[k]);
        assert(is_digit(s[k]));
        lemma_digits_nonneg(s.take(k));
        assert(digits_value(s.take(k + 1)) == digits_value(s.take(k)) * 10 + digit_value(s[k]));
        lemma_digits_prefix_le(s, k + 1);
    }
}

proof fn lemma_fraction_nonneg(fp: Seq<char>)
    requires
        all_digits(fp),
    ensures
        fraction_micros(fp) >= 0,
{
    if fp.len() >= 6 {
        lemma_digits_nonneg(fp.take(6));
    } else {
        lemma_digits_nonneg(fp);
        lemma_pow10_pos((6 - fp.len()) as nat);
        lemma_mul_nonnegative(digits_value(fp), pow10((6 - fp.len()) as nat));
    }
}

/// If already a prefix of the integer part exceeds the representable
/// range, the whole literal parses to nothing.
proof fn lemma_value_exceeds(s: Seq<char>, k: int)
    requires
        0 <= k <= decimal_parts(s).0.len(),
        digits_value(decimal_parts(s).0.take(k)) > u64::MAX,
    ensures
        micros_of(s) is None,
{
    if well_formed_decimal(s) {
        let ip = decimal_parts(s).0;
        let fp = decimal_parts(s).1;
        lemma_digits_prefix_le(ip, k);
        lemma_fraction_nonneg(fp);
        lemma_digits_nonneg(ip);
        lemma_mul_inequality(1, MICRO_PER_UNIT as int, digits_value(ip));
        lemma_mul_is_commutative(digits_value(ip), MICRO_PER_UNIT as int);
    }
}

/// Parses an override value into micro-units: digits with at most one
/// decimal point. No sign, exponent form or infinity is accepted; see
/// `micros_of` for the exact grammar.
pub fn parse_micros(s: &str) -> (r: Option<u64>)
    ensures
        r == micros_of(s@),
{
    let n = s.unicode_len();
    let dot = find_char(s, '.');
    proof {
        crate::text::lemma_first_index_of(s@, '.');
    }
    let ip_len: usize = match dot {
        Some(i) => i,
        None => n,
    };
    let fp_start: usize = match dot {
        Some(i) => i + 1,
        None => n,
    };
    proof {
        assert(decimal_parts(s@).0 =~= s@.take(ip_len as int));
        assert(decimal_parts(s@).1 =~= s@.skip(fp_start as int));
    }
    let ghost ip = decimal_parts(s@).0;
    let ghost fp = decimal_parts(s@).1;
    let fl: usize = n - fp_start;
    if ip_len == 0 && fl == 0 {
        return None;
    }

    // Integer part: validate and accumulate.
    let mut acc: u64 = 0;
    let mut i: usize = 0;
    while i < ip_len
        invariant
            ip_len <= n,
            n == s@.len(),
            ip == s@.take(ip_len as int),
            ip == decimal_parts(s@).0,
            0 <= i <= ip_len,
            forall|j: int| 0 <= j < i ==> is_digit(ip[j]),
            acc == digits_value(ip.take(i as int)),
        decreases ip_len - i,
    {
        let ch = s.get_char(i);
        let u = ch as u32;
        if u < 48 || u > 57 {
            proof {
                assert(!is_digit(ip[i as int]));
            }
            return None;
        }
        let d = (u - 48) as u64;
        proof {
            assert(ip.take(i + 1).drop_last() =~= ip.take(i as int));
            assert(ip.take(i + 1).last() == ip[i as int]);
        }
        let mul10 = acc.checked_mul(10);
        if mul10.is_none() {
            proof {
                assert(digits_value(ip.take(i + 1)) == acc * 10 + digit_value(ip[i as int]));
                lemma_value_exceeds(s@, i + 1);
            }
            return None;
        }
        let stepped = mul10.unwrap().checked_add(d);
        if stepped.is_none() {
            proof {
                assert(digits_value(ip.take(i + 1)) == acc * 10 + digit_value(ip[i as int]));
                lemma_value_exceeds(s@, i + 1);
            }
            return None;
        }
        acc = stepped.unwrap();
        i += 1;
    }
    proof {
        assert(ip.take(ip_len as int) =~= ip);
        assert(all_digits(ip));
    }

    // Fraction part: validate all of it, accumulate the first six digits.
    let mut frac: u64 = 0;
    let mut j: usize = 0;
    while j < fl
        invariant
            fp_start + fl == n,
            n == s@.len(),
            fp == s@.skip(fp_start as int),
            fp == decimal_parts(s@).1,
            fp.len() == fl,
            0 <= j <= fl,
            forall|q: int| 0 <= q < j ==> is_digit(fp[q]),
            frac == digits_value(fp.take(if j <= 6 { j as int } else { 6 })),
        decreases fl - j,
    {
        let ch = s.get_char(fp_start + j);
        let u = ch as u32;
        if u < 48 || u > 57 {
            proof {
                assert(!is_digit(fp[j as int]));
            }
            return None;
        }
        if j < 6 {
            let d = (u - 48) as u64;
            proof {
                assert(fp.take(j + 1).drop_last() =~= fp.take(j as int));
                assert(fp.take(j + 1).last() == fp[j as int]);
                assert(forall|q: int| 0 <= q < j ==> fp.take(j as int)[q] == fp[q]);
                lemma_digits_upper(fp.take(j as int));
                lemma_pow10_mono(j as nat, 5);
                reveal_with_fuel(pow10, 7);
                assert(pow10(5) == 100000);
            }
            frac = frac * 10 + d;
        }
        j += 1;
    }
    proof {
        assert(fp.take(fl as int) =~= fp);
        assert(all_digits(fp));
        assert(well_formed_decimal(s@));
    }

    // Scale the fraction up to millionths.
    let factor: u64 = if fl >= 6 {
        1
    } else if fl == 0 {
        1000000
    } else if fl == 1 {
        100000
    } else if fl == 2 {
        10000
    } else if fl == 3 {
        1000
    } else if fl == 4 {
        100
    } else {
        10
    };
    proof {
        reveal_with_fuel(pow10, 7);
        assert(pow10(0) == 1 && pow10(1) == 10 && pow10(2) == 100 && pow10(3) == 1000 && pow10(4)
            == 10000 && pow10(5) == 100000 && pow10(6) == 1000000);
        if fl >= 6 {
            assert(fp.take(6) == fp.take(if fl >= 6 { 6 } else { fl as int }));
            lemma_digits_upper(fp.take(6));
        } else {
            assert(fp.take(fl as int) =~= fp);
            lemma_digits_upper(fp);
            lemma_digits_nonneg(fp);
            lemma_pow10_mono(fl as nat, 6);
            lemma_mul_inequality(digits_value(fp), pow10(fl as nat) - 1, pow10((6 - fl) as nat));
            lemma_mul_is_commutative(digits_value(fp), pow10((6 - fl) as nat));
            lemma_mul_inequality(pow10((6 - fl) as nat), pow10(6 as nat), pow10(fl as nat) - 1);
            lemma_mul_nonnegative(digits_value(fp), pow10((6 - fl) as nat));
        }
        assert(0 <= fraction_micros(fp) < 1000000000000int);
    }
    let scaled: u64 = frac * factor;
    proof {
        assert(scaled == fraction_micros(fp));
    }

    // Combine: integer units in millionths plus the fraction.
    proof {
        lemma_digits_nonneg(ip);
        lemma_mul_inequality(1, MICRO_PER_UNIT as int, digits_value(ip));
        lemma_mul_is_commutative(digits_value(ip), MICRO_PER_UNIT as int);
    }
    let base = acc.checked_mul(MICRO_PER_UNIT);
    if base.is_none() {
        return None;
    }
    let total = base.unwrap().checked_add(scaled);
    if total.is_none() {
        return None;
    }
    proof {
        assert(decimal_value_micros(s@) == acc * MICRO_PER_UNIT + scaled);
    }
    Some(total.unwrap())
}

} // verus!

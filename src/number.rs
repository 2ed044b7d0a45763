//! The numeric composition algebra: grain-aware positional composition, scale
//! multiplication, signs, magnitude suffixes, decimals and ordinals.
use vstd::prelude::*;
use crate::lexicon::{
    cardinal_lookup, cardinal_of, dozen_lookup, dozen_of, few_lookup, few_of,
    multiplied_ordinal_scale_lookup, multiplied_ordinal_scale_of, ordinal_lookup, ordinal_of,
    ordinal_scale_lookup, ordinal_scale_of, scale_lookup, scale_of, suffix_lookup, suffix_of,
    tens_lookup, tens_of,
};
use crate::text::{fold, folded};
use vstd::arithmetic::div_mod::{lemma_fundamental_div_mod, lemma_fundamental_div_mod_converse};
use crate::dimension::{
    combine_precision, combined, fits_i64, lemma_pow10_bounds, lemma_pow10_monotone, pow10,
    pow10_exec, Decimal, FloatValue, IntegerValue, NumberValue, OrdinalValue, PercentageValue,
    Precision, RuleError, MAX_SCALE,
};

verus! {

/// The grain of a number, 0 when it has none.
pub open spec fn grain_or_zero(n: NumberValue) -> int {
    match n.grain() {
        Some(g) => g as int,
        None => 0,
    }
}

/// `b` may stand after `a` in positional composition: `a` is an integer, the
/// grain of `b` (if any) is strictly below that of `a`, and the value of `b`
/// is below ten to the grain of `a`.
pub open spec fn composable(a: NumberValue, b: NumberValue) -> bool {
    &&& a is Integer
    &&& match b.grain() {
        Some(gb) => (gb as int) < grain_or_zero(a),
        None => true,
    }
    &&& b.decimal().mantissa < pow10((grain_or_zero(a) + b.decimal().scale) as nat)
}

/// Positional composition of `a` (higher grain) with `b`: their sum.
pub open spec fn composed(a: NumberValue, b: NumberValue) -> Result<NumberValue, RuleError> {
    if !composable(a, b) {
        Err(RuleError::Invalid)
    } else {
        let x = a->Integer_0;
        match b {
            NumberValue::Integer(y) => {
                let s = x.value + y.value;
                if fits_i64(s) {
                    Ok(
                        NumberValue::Integer(
                            IntegerValue {
                                precision: combined(x.precision, y.precision),
                                ..IntegerValue::plain(s as i64)
                            },
                        ),
                    )
                } else {
                    Err(RuleError::Overflow)
                }
            },
            NumberValue::Float(y) => {
                let m = x.value * pow10(y.value.scale as nat) + y.value.mantissa;
                if fits_i64(m) {
                    Ok(
                        NumberValue::Float(
                            FloatValue {
                                precision: combined(x.precision, y.precision),
                                ..FloatValue::plain(Decimal { mantissa: m as i64, scale: y.value.scale })
                            },
                        ),
                    )
                } else {
                    Err(RuleError::Overflow)
                }
            },
        }
    }
}

/// Whether `m` is below ten to the `e`.
fn below_pow10(m: i64, e: u32) -> (r: bool)
    ensures
        r == (m < pow10(e as nat)),
{
    if e > MAX_SCALE {
        proof {
            lemma_pow10_monotone(19, e as nat);
            reveal_with_fuel(pow10, 20);
        }
        true
    } else {
        m < pow10_exec(e)
    }
}

/// Composes a higher-grain integer `a` ("two hundred") with a lower value `b`
/// ("three") into their sum; fails unless `b` lies strictly below the grain of `a`.
pub fn compose_numbers(a: &NumberValue, b: &NumberValue) -> (r: Result<NumberValue, RuleError>)
    requires
        b.wf(),
    ensures
        r == composed(*a, *b),
{
    let x = match a {
        NumberValue::Integer(x) => x,
        NumberValue::Float(_) => {
            return Err(RuleError::Invalid);
        },
    };
    let g: u32 = match x.grain {
        Some(g) => g as u32,
        None => 0,
    };
    let bv = b.value();
    let grain_ok = match b {
        NumberValue::Integer(y) => match y.grain {
            Some(gb) => (gb as u32) < g,
            None => true,
        },
        NumberValue::Float(_) => true,
    };
    if !grain_ok || !below_pow10(bv.mantissa, g + bv.scale) {
        return Err(RuleError::Invalid);
    }
    match b {
        NumberValue::Integer(y) => match x.value.checked_add(y.value) {
            Some(s) => {
                let mut v = IntegerValue::new(s);
                v.precision = combine_precision(x.precision, y.precision);
                Ok(NumberValue::Integer(v))
            },
            None => Err(RuleError::Overflow),
        },
        NumberValue::Float(y) => {
            let p = pow10_exec(y.value.scale);
            proof {
                lemma_pow10_bounds(y.value.scale as nat);
                assert(-9_223_372_036_854_775_808 * 1_000_000_000_000_000_000 <= x.value * p
                    <= 9_223_372_036_854_775_807 * 1_000_000_000_000_000_000) by (nonlinear_arith)
                    requires
                        1 <= p <= 1_000_000_000_000_000_000,
                        i64::MIN <= x.value <= i64::MAX,
                ;
            }
            let wide: i128 = (x.value as i128) * (p as i128) + (y.value.mantissa as i128);
            if wide < i64::MIN as i128 || wide > i64::MAX as i128 {
                return Err(RuleError::Overflow);
            }
            let mut v = FloatValue::new(Decimal { mantissa: wide as i64, scale: y.value.scale });
            v.precision = combine_precision(x.precision, y.precision);
            Ok(NumberValue::Float(v))
        },
    }
}

/// A value of grain `ga` never takes a value of grain `gb >= ga` after it.
pub proof fn lemma_compose_rejects_equal_or_higher_grain(a: NumberValue, b: NumberValue)
    requires
        b.grain() is Some,
        b.grain()->0 as int >= grain_or_zero(a),
    ensures
        composed(a, b) == Err::<NumberValue, RuleError>(RuleError::Invalid),
{
}

/// The integer a single word stands for: a cardinal from zero to ten or a
/// multiple of ten (grain 1), "a few" (an approximate three), a dozen (a group
/// word) or a scale word (with its grain).
pub open spec fn integer_word_value(w: Seq<char>) -> Option<IntegerValue> {
    if cardinal_of(w) is Some {
        Some(IntegerValue { grain: Some(1u8), ..IntegerValue::plain(cardinal_of(w)->0 as i64) })
    } else if tens_of(w) is Some {
        Some(IntegerValue { grain: Some(1u8), ..IntegerValue::plain(tens_of(w)->0 as i64) })
    } else if few_of(w) is Some {
        Some(
            IntegerValue {
                grain: Some(1u8),
                precision: Precision::Approximate,
                ..IntegerValue::plain(few_of(w)->0 as i64)
            },
        )
    } else if dozen_of(w) is Some {
        Some(
            IntegerValue {
                grain: Some(1u8),
                group: true,
                ..IntegerValue::plain(dozen_of(w)->0 as i64)
            },
        )
    } else if scale_of(w) is Some {
        let (v, g) = scale_of(w)->0;
        Some(IntegerValue { grain: Some(g as u8), ..IntegerValue::plain(v as i64) })
    } else {
        None
    }
}

/// The integer a single word stands for, looked up with its accents folded.
pub fn integer_word(word: &str) -> (r: Option<IntegerValue>)
    ensures
        r == integer_word_value(folded(word@)),
{
    let w = fold(word);
    integer_word_chars(&w)
}

/// The integer an accent-folded word stands for.
pub fn integer_word_chars(w: &Vec<char>) -> (r: Option<IntegerValue>)
    ensures
        r == integer_word_value(w@),
{
    if let Some(v) = cardinal_lookup(w) {
        Some(IntegerValue::new_with_grain(v, 1))
    } else if let Some(v) = tens_lookup(w) {
        Some(IntegerValue::new_with_grain(v, 1))
    } else if let Some(v) = few_lookup(w) {
        let mut i = IntegerValue::new_with_grain(v, 1);
        i.precision = Precision::Approximate;
        Some(i)
    } else if let Some(v) = dozen_lookup(w) {
        let mut i = IntegerValue::new_with_grain(v, 1);
        i.group = true;
        Some(i)
    } else if let Some((v, g)) = scale_lookup(w) {
        Some(IntegerValue::new_with_grain(v, g))
    } else {
        None
    }
}

/// "fiche" then "a trí": a multiple of ten from 10 to 90 followed by a unit
/// from 1 to 9 gives their sum.
pub open spec fn tens_composed(a: IntegerValue, b: IntegerValue) -> Result<IntegerValue, RuleError> {
    if 10 <= a.value <= 90 && a.value % 10 == 0 && 1 <= b.value <= 9 {
        Ok(
            IntegerValue {
                precision: combined(a.precision, b.precision),
                ..IntegerValue::plain((a.value + b.value) as i64)
            },
        )
    } else {
        Err(RuleError::Invalid)
    }
}

pub fn compose_tens(a: &IntegerValue, b: &IntegerValue) -> (r: Result<IntegerValue, RuleError>)
    ensures
        r == tens_composed(*a, *b),
{
    if 10 <= a.value && a.value <= 90 && a.value % 10 == 0 && 1 <= b.value && b.value <= 9 {
        let mut v = IntegerValue::new(a.value + b.value);
        v.precision = combine_precision(a.precision, b.precision);
        Ok(v)
    } else {
        Err(RuleError::Invalid)
    }
}

/// The following word shows lenition: an `h` inserted as its second letter.
pub open spec fn lenited(w: Seq<char>) -> bool {
    w.len() > 1 && w[1] == 'h'
}

/// The multiplier that a scale word takes: "sé" is both six and a pronoun, and
/// counts as six only before a lenited word; otherwise there is no multiplier.
pub open spec fn effective_multiplier(n: int, w: Seq<char>) -> int {
    if n == 6 && !lenited(w) {
        1
    } else {
        n
    }
}

/// "trí chéad": a multiplier from 1 to 999 times a scale word (accent-folded),
/// at the scale word's grain.
pub open spec fn scaled_by_word(n: IntegerValue, w: Seq<char>) -> Result<IntegerValue, RuleError> {
    if !(1 <= n.value <= 999) || scale_of(w) is None {
        Err(RuleError::Invalid)
    } else {
        let (value, grain) = scale_of(w)->0;
        Ok(
            IntegerValue {
                grain: Some(grain as u8),
                precision: n.precision,
                ..IntegerValue::plain((effective_multiplier(n.value as int, w) * value) as i64)
            },
        )
    }
}

fn is_lenited(w: &Vec<char>) -> (r: bool)
    ensures
        r == lenited(w@),
{
    w.len() > 1 && w[1] == 'h'
}

/// Multiplies an integer from 1 to 999 by a scale word ("trí chéad" is 300 at
/// grain 2), with the lenition check on "sé".
pub fn multiply_by_scale_word(n: &IntegerValue, word: &str) -> (r: Result<IntegerValue, RuleError>)
    ensures
        r == scaled_by_word(*n, folded(word@)),
{
    multiply_by_scale_chars(n, &fold(word))
}

/// Multiplies an integer by an accent-folded scale word.
pub fn multiply_by_scale_chars(n: &IntegerValue, w: &Vec<char>) -> (r: Result<IntegerValue, RuleError>)
    ensures
        r == scaled_by_word(*n, w@),
{
    if n.value < 1 || n.value > 999 {
        return Err(RuleError::Invalid);
    }
    match scale_lookup(w) {
        Some((value, grain)) => {
            let multiple: i64 = if n.value == 6 && !is_lenited(w) { 1 } else { n.value };
            let mut v = IntegerValue::new_with_grain(multiple * value, grain);
            v.precision = n.precision;
            Ok(v)
        },
        None => Err(RuleError::Invalid),
    }
}

/// "dhá dhosaen": a count from 1 to 99 times a group word keeps the group's
/// grain and is itself a group.
pub open spec fn group_multiplied(a: IntegerValue, b: IntegerValue) -> Result<IntegerValue, RuleError> {
    if !(1 <= a.value <= 99 && b.group) {
        Err(RuleError::Invalid)
    } else if !fits_i64(a.value * b.value) {
        Err(RuleError::Overflow)
    } else {
        Ok(
            IntegerValue {
                grain: b.grain,
                group: true,
                precision: combined(a.precision, b.precision),
                ..IntegerValue::plain((a.value * b.value) as i64)
            },
        )
    }
}

pub fn multiply_group(a: &IntegerValue, b: &IntegerValue) -> (r: Result<IntegerValue, RuleError>)
    ensures
        r == group_multiplied(*a, *b),
{
    if a.value < 1 || a.value > 99 || !b.group {
        return Err(RuleError::Invalid);
    }
    match a.value.checked_mul(b.value) {
        Some(p) => {
            let mut v = IntegerValue::new(p);
            v.grain = b.grain;
            v.group = true;
            v.precision = combine_precision(a.precision, b.precision);
            Ok(v)
        },
        None => Err(RuleError::Overflow),
    }
}

/// The value of a scale word, 0 for any other word.
pub open spec fn scale_value(w: Seq<char>) -> int {
    match scale_of(w) {
        Some((v, _)) => v,
        None => 0,
    }
}

/// The grain of a scale word, 0 for any other word.
pub open spec fn scale_grain(w: Seq<char>) -> int {
    match scale_of(w) {
        Some((_, g)) => g,
        None => 0,
    }
}

/// Scale multiplication then positional composition: "trí chéad" is the
/// multiplier times the scale word at the scale word's grain, and a following
/// value below that grain ("is a cúig") is added to it.
pub proof fn lemma_scale_then_compose(n: IntegerValue, w: Seq<char>, b: IntegerValue)
    requires
        scaled_by_word(n, w) is Ok,
        match b.grain {
            Some(gb) => (gb as int) < scale_grain(w),
            None => true,
        },
        0 <= b.value < pow10(scale_grain(w) as nat),
    ensures
        ({
            let s = scaled_by_word(n, w)->Ok_0;
            &&& s.value == effective_multiplier(n.value as int, w) * scale_value(w)
            &&& s.grain == Some(scale_grain(w) as u8)
            &&& composed(NumberValue::Integer(s), NumberValue::Integer(b)) == Ok::<
                NumberValue,
                RuleError,
            >(
                NumberValue::Integer(
                    IntegerValue {
                        precision: combined(n.precision, b.precision),
                        ..IntegerValue::plain((s.value + b.value) as i64)
                    },
                ),
            )
        }),
{
    reveal_with_fuel(pow10, 10);
}

/// The sign rule: "míneas" negates a number that no sign rule has consumed yet.
pub open spec fn negated(n: NumberValue) -> Result<NumberValue, RuleError> {
    if n.prefixed() {
        Err(RuleError::Invalid)
    } else {
        match n {
            NumberValue::Integer(i) => if fits_i64(-i.value) {
                Ok(NumberValue::Integer(IntegerValue { value: (-i.value) as i64, prefixed: true, ..i }))
            } else {
                Err(RuleError::Overflow)
            },
            NumberValue::Float(f) => if fits_i64(-f.value.mantissa) {
                Ok(
                    NumberValue::Float(
                        FloatValue {
                            value: Decimal { mantissa: (-f.value.mantissa) as i64, ..f.value },
                            prefixed: true,
                            ..f
                        },
                    ),
                )
            } else {
                Err(RuleError::Overflow)
            },
        }
    }
}

/// Negates a number and marks it as carrying a sign; fails on a number that
/// already carries one.
pub fn negate(n: &NumberValue) -> (r: Result<NumberValue, RuleError>)
    ensures
        r == negated(*n),
{
    match n {
        NumberValue::Integer(i) => {
            if i.prefixed {
                return Err(RuleError::Invalid);
            }
            if i.value == i64::MIN {
                return Err(RuleError::Overflow);
            }
            Ok(NumberValue::Integer(IntegerValue { value: -i.value, prefixed: true, ..*i }))
        },
        NumberValue::Float(f) => {
            if f.prefixed {
                return Err(RuleError::Invalid);
            }
            if f.value.mantissa == i64::MIN {
                return Err(RuleError::Overflow);
            }
            Ok(
                NumberValue::Float(
                    FloatValue {
                        value: Decimal { mantissa: -f.value.mantissa, scale: f.value.scale },
                        prefixed: true,
                        ..*f
                    },
                ),
            )
        },
    }
}

/// The plus sign: the value is kept and marked as carrying a sign; fails on a
/// number that already carries one.
pub open spec fn marked_positive(n: NumberValue) -> Result<NumberValue, RuleError> {
    if n.prefixed() {
        Err(RuleError::Invalid)
    } else {
        match n {
            NumberValue::Integer(i) => Ok(NumberValue::Integer(IntegerValue { prefixed: true, ..i })),
            NumberValue::Float(f) => Ok(NumberValue::Float(FloatValue { prefixed: true, ..f })),
        }
    }
}

pub fn mark_positive(n: &NumberValue) -> (r: Result<NumberValue, RuleError>)
    ensures
        r == marked_positive(*n),
{
    match n {
        NumberValue::Integer(i) => {
            if i.prefixed {
                return Err(RuleError::Invalid);
            }
            Ok(NumberValue::Integer(IntegerValue { prefixed: true, ..*i }))
        },
        NumberValue::Float(f) => {
            if f.prefixed {
                return Err(RuleError::Invalid);
            }
            Ok(NumberValue::Float(FloatValue { prefixed: true, ..*f }))
        },
    }
}

/// The sign rules reject a value as invalid exactly when it already carries a
/// sign; the plus sign succeeds on every other value, and the minus sign on
/// every other value whose negation fits.
pub proof fn lemma_sign_rejects_exactly_signed(n: NumberValue)
    ensures
        (negated(n) == Err::<NumberValue, RuleError>(RuleError::Invalid)) <==> n.prefixed(),
        marked_positive(n) is Err <==> n.prefixed(),
        marked_positive(n) matches Ok(v) ==> v.prefixed() && v.decimal() == n.decimal(),
        negated(n) matches Ok(v) ==> v.prefixed() && v.decimal().scale == n.decimal().scale
            && v.decimal().mantissa == -n.decimal().mantissa,
{
}

/// A sign rule fires at most once on a value: applying the sign rule to its
/// own result fails.
pub proof fn lemma_sign_applies_once(n: NumberValue)
    requires
        negated(n) is Ok,
    ensures
        negated(negated(n)->Ok_0) == Err::<NumberValue, RuleError>(RuleError::Invalid),
{
}

/// The magnitude suffix rule: k, m or g multiplies a number that no suffix
/// rule has consumed yet; a decimal whose product is whole becomes an integer.
pub open spec fn suffixed_by(n: NumberValue, w: Seq<char>) -> Result<NumberValue, RuleError> {
    if n.suffixed() || suffix_of(w) is None {
        Err(RuleError::Invalid)
    } else {
        let k = suffix_of(w)->0;
        match n {
            NumberValue::Integer(i) => if fits_i64(i.value * k) {
                Ok(NumberValue::Integer(IntegerValue { value: (i.value * k) as i64, suffixed: true, ..i }))
            } else {
                Err(RuleError::Overflow)
            },
            NumberValue::Float(f) => {
                let m = f.value.mantissa * k;
                let p = pow10(f.value.scale as nat);
                if !fits_i64(m) {
                    Err(RuleError::Overflow)
                } else if m % p == 0 {
                    Ok(
                        NumberValue::Integer(
                            IntegerValue {
                                suffixed: true,
                                precision: f.precision,
                                ..IntegerValue::plain((m / p) as i64)
                            },
                        ),
                    )
                } else {
                    Ok(
                        NumberValue::Float(
                            FloatValue {
                                value: Decimal { mantissa: m as i64, ..f.value },
                                suffixed: true,
                                ..f
                            },
                        ),
                    )
                }
            },
        }
    }
}

/// Applies a magnitude suffix (k, m, g) to a number; fails on a number that
/// already carries one.
pub fn apply_suffix(n: &NumberValue, word: &str) -> (r: Result<NumberValue, RuleError>)
    requires
        n.wf(),
    ensures
        r == suffixed_by(*n, folded(word@)),
{
    apply_suffix_chars(n, &fold(word))
}

/// Applies an accent-folded magnitude suffix to a number.
pub fn apply_suffix_chars(n: &NumberValue, w: &Vec<char>) -> (r: Result<NumberValue, RuleError>)
    requires
        n.wf(),
    ensures
        r == suffixed_by(*n, w@),
{
    let k = match suffix_lookup(w) {
        Some(k) => k,
        None => {
            return Err(RuleError::Invalid);
        },
    };
    match n {
        NumberValue::Integer(i) => {
            if i.suffixed {
                return Err(RuleError::Invalid);
            }
            match i.value.checked_mul(k) {
                Some(v) => Ok(NumberValue::Integer(IntegerValue { value: v, suffixed: true, ..*i })),
                None => Err(RuleError::Overflow),
            }
        },
        NumberValue::Float(f) => {
            if f.suffixed {
                return Err(RuleError::Invalid);
            }
            let m = match f.value.mantissa.checked_mul(k) {
                Some(m) => m,
                None => {
                    return Err(RuleError::Overflow);
                },
            };
            let p = pow10_exec(f.value.scale);
            proof {
                lemma_pow10_bounds(f.value.scale as nat);
            }
            if m >= 0 {
                if m % p == 0 {
                    return Ok(NumberValue::Integer(IntegerValue { suffixed: true, precision: f.precision, ..IntegerValue::new(m / p) }));
                }
            } else if m > i64::MIN {
                let a: i64 = -m;
                if a % p == 0 {
                    proof {
                        lemma_fundamental_div_mod(a as int, p as int);
                        assert(m == (-(a / p)) * p) by (nonlinear_arith)
                            requires
                                a == -m,
                                a == p * (a / p) + 0,
                        ;
                        lemma_fundamental_div_mod_converse(m as int, p as int, -(a / p), 0);
                    }
                    return Ok(NumberValue::Integer(IntegerValue { suffixed: true, precision: f.precision, ..IntegerValue::new(-(a / p)) }));
                }
                proof {
                    if m % p == 0 {
                        lemma_fundamental_div_mod(m as int, p as int);
                        assert(a == (-(m / p)) * p) by (nonlinear_arith)
                            requires
                                a == -m,
                                m == p * (m / p) + 0,
                        ;
                        lemma_fundamental_div_mod_converse(a as int, p as int, -(m / p), 0);
                    }
                }
            }
            Ok(
                NumberValue::Float(
                    FloatValue {
                        value: Decimal { mantissa: m, scale: f.value.scale },
                        suffixed: true,
                        ..*f
                    },
                ),
            )
        },
    }
}

/// A suffix rule fires at most once on a value.
pub proof fn lemma_suffix_applies_once(n: NumberValue, w: Seq<char>, w2: Seq<char>)
    requires
        suffixed_by(n, w) is Ok,
    ensures
        suffixed_by(suffixed_by(n, w)->Ok_0, w2) == Err::<NumberValue, RuleError>(RuleError::Invalid),
{
}

/// A number as a percentage.
pub fn percentage(n: &NumberValue) -> (r: PercentageValue)
    ensures
        r.value == n.decimal(),
{
    PercentageValue { value: n.value() }
}

/// An integer plus `numerator` over ten to the `scale`.
pub open spec fn plus_fraction(n: IntegerValue, numerator: int, scale: nat) -> Result<FloatValue, RuleError> {
    let m = n.value * pow10(scale) + numerator;
    if fits_i64(m) {
        Ok(
            FloatValue {
                precision: n.precision,
                ..FloatValue::plain(Decimal { mantissa: m as i64, scale: scale as u32 })
            },
        )
    } else {
        Err(RuleError::Overflow)
    }
}

/// "trí go leith": an integer and a half.
pub fn and_a_half(n: &IntegerValue) -> (r: Result<FloatValue, RuleError>)
    ensures
        r == plus_fraction(*n, 5, 1),
{
    proof {
        reveal_with_fuel(pow10, 2);
        assert(pow10(1) == 10);
    }
    if n.value > 922337203685477580 || n.value < -922337203685477581 {
        return Err(RuleError::Overflow);
    }
    let m: i128 = (n.value as i128) * 10 + 5;
    let mut f = FloatValue::new(Decimal { mantissa: m as i64, scale: 1 });
    f.precision = n.precision;
    Ok(f)
}

/// "trí agus ceathrú": an integer and a quarter.
pub fn and_a_quarter(n: &IntegerValue) -> (r: Result<FloatValue, RuleError>)
    ensures
        r == plus_fraction(*n, 25, 2),
{
    proof {
        reveal_with_fuel(pow10, 3);
        assert(pow10(2) == 100);
    }
    if n.value > 92233720368547757 || n.value < -92233720368547758 {
        return Err(RuleError::Overflow);
    }
    let mut f = FloatValue::new(Decimal { mantissa: n.value * 100 + 25, scale: 2 });
    f.precision = n.precision;
    Ok(f)
}

/// The number of decimal digits of `n`.
pub open spec fn num_digits(n: nat) -> nat
    decreases n,
{
    if n < 10 {
        1
    } else {
        1 + num_digits(n / 10)
    }
}

proof fn lemma_num_digits_bound(n: nat)
    ensures
        n < pow10(num_digits(n)),
        num_digits(n) >= 1,
    decreases n,
{
    reveal_with_fuel(pow10, 2);
    if n >= 10 {
        lemma_num_digits_bound(n / 10);
        let d = num_digits(n / 10);
        assert(num_digits(n) == d + 1);
        assert(pow10(d + 1) == 10 * pow10(d));
        assert(n < 10 * pow10(d)) by (nonlinear_arith)
            requires
                n / 10 < pow10(d),
                n >= 10,
        ;
    }
}

proof fn lemma_num_digits_le(n: nat, k: nat)
    requires
        n < pow10(k),
        k >= 1,
    ensures
        num_digits(n) <= k,
    decreases n,
{
    if n >= 10 {
        assert(k >= 2) by {
            if k == 1 {
                reveal_with_fuel(pow10, 2);
            }
        }
        assert(pow10(k) == 10 * pow10((k - 1) as nat));
        lemma_num_digits_le(n / 10, (k - 1) as nat);
    }
}

fn count_digits(n: i64) -> (r: u32)
    requires
        n >= 0,
    ensures
        r == num_digits(n as nat),
        1 <= r <= 19,
{
    proof {
        reveal_with_fuel(pow10, 20);
        lemma_num_digits_le(n as nat, 19);
        lemma_num_digits_bound(n as nat);
    }
    let mut m: i64 = n;
    let mut c: u32 = 1;
    while m >= 10
        invariant
            m >= 0,
            1 <= c,
            c + num_digits(m as nat) - 1 == num_digits(n as nat),
            num_digits(n as nat) <= 19,
        decreases m,
    {
        proof {
            lemma_num_digits_bound((m / 10) as nat);
        }
        m = m / 10;
        c = c + 1;
    }
    c
}

/// "a trí ponc (náid náid) a cúig": integer part `a`, then `zeros` zero words,
/// then the digits of `b` as the fraction.
pub open spec fn dotted(a: IntegerValue, zeros: nat, b: IntegerValue) -> Result<FloatValue, RuleError> {
    if a.prefixed || b.prefixed || a.value < 0 || b.value < 0 {
        Err(RuleError::Invalid)
    } else {
        let s = zeros + num_digits(b.value as nat);
        let m = a.value * pow10(s) + b.value;
        if s > MAX_SCALE || !fits_i64(m) {
            Err(RuleError::Overflow)
        } else {
            Ok(
                FloatValue {
                    precision: combined(a.precision, b.precision),
                    ..FloatValue::plain(Decimal { mantissa: m as i64, scale: s as u32 })
                },
            )
        }
    }
}

/// Builds a decimal from its integer part, a count of zero words after the
/// point and the integer that follows them.
pub fn compose_dotted(a: &IntegerValue, zeros: u32, b: &IntegerValue) -> (r: Result<FloatValue, RuleError>)
    ensures
        r == dotted(*a, zeros as nat, *b),
{
    if a.prefixed || b.prefixed || a.value < 0 || b.value < 0 {
        return Err(RuleError::Invalid);
    }
    let d = count_digits(b.value);
    if zeros > MAX_SCALE || d > MAX_SCALE - zeros {
        return Err(RuleError::Overflow);
    }
    let s: u32 = zeros + d;
    let p = pow10_exec(s);
    proof {
        lemma_pow10_bounds(s as nat);
        assert(0 <= a.value * p <= 9_223_372_036_854_775_807 * 1_000_000_000_000_000_000)
            by (nonlinear_arith)
            requires
                1 <= p <= 1_000_000_000_000_000_000,
                0 <= a.value <= i64::MAX,
        ;
    }
    let wide: i128 = (a.value as i128) * (p as i128) + (b.value as i128);
    if wide > i64::MAX as i128 {
        return Err(RuleError::Overflow);
    }
    let mut f = FloatValue::new(Decimal { mantissa: wide as i64, scale: s });
    f.precision = combine_precision(a.precision, b.precision);
    Ok(f)
}

/// The ordinal a single word stands for: "tríú" is the third, "céadú" the
/// hundredth at grain 2.
pub open spec fn ordinal_word_value(w: Seq<char>) -> Option<OrdinalValue> {
    if ordinal_of(w) is Some {
        Some(OrdinalValue::plain(ordinal_of(w)->0 as i64))
    } else if ordinal_scale_of(w) is Some {
        let (v, g) = ordinal_scale_of(w)->0;
        Some(OrdinalValue { grain: Some(g as u8), ..OrdinalValue::plain(v as i64) })
    } else {
        None
    }
}

pub fn ordinal_word(word: &str) -> (r: Option<OrdinalValue>)
    ensures
        r == ordinal_word_value(folded(word@)),
{
    let w = fold(word);
    ordinal_word_chars(&w)
}

/// The ordinal an accent-folded word stands for.
pub fn ordinal_word_chars(w: &Vec<char>) -> (r: Option<OrdinalValue>)
    ensures
        r == ordinal_word_value(w@),
{
    if let Some(v) = ordinal_lookup(w) {
        Some(OrdinalValue::new(v))
    } else if let Some((v, g)) = ordinal_scale_lookup(w) {
        Some(OrdinalValue::new_with_grain(v, g))
    } else {
        None
    }
}

/// "fiche a trídú": a multiple of ten from 10 to 90 then an ordinal from 1 to 9.
pub open spec fn ordinal_tens_composed(a: IntegerValue, o: OrdinalValue) -> Result<OrdinalValue, RuleError> {
    if 10 <= a.value <= 90 && a.value % 10 == 0 && 1 <= o.value <= 9 {
        Ok(OrdinalValue::plain((a.value + o.value) as i64))
    } else {
        Err(RuleError::Invalid)
    }
}

pub fn compose_ordinal_tens(a: &IntegerValue, o: &OrdinalValue) -> (r: Result<OrdinalValue, RuleError>)
    ensures
        r == ordinal_tens_composed(*a, *o),
{
    if 10 <= a.value && a.value <= 90 && a.value % 10 == 0 && 1 <= o.value && o.value <= 9 {
        Ok(OrdinalValue::new(a.value + o.value))
    } else {
        Err(RuleError::Invalid)
    }
}

/// "trí chéadú": a multiplier from 1 to 999 times an ordinal scale word, with
/// the lenition check on "sé".
pub open spec fn ordinal_scaled_by_word(n: IntegerValue, w: Seq<char>) -> Result<OrdinalValue, RuleError> {
    if !(1 <= n.value <= 999) || multiplied_ordinal_scale_of(w) is None {
        Err(RuleError::Invalid)
    } else {
        let (value, grain) = multiplied_ordinal_scale_of(w)->0;
        Ok(
            OrdinalValue {
                grain: Some(grain as u8),
                ..OrdinalValue::plain((effective_multiplier(n.value as int, w) * value) as i64)
            },
        )
    }
}

pub fn multiply_ordinal_by_scale_word(n: &IntegerValue, word: &str) -> (r: Result<OrdinalValue, RuleError>)
    ensures
        r == ordinal_scaled_by_word(*n, folded(word@)),
{
    multiply_ordinal_by_scale_chars(n, &fold(word))
}

/// Multiplies an integer by an accent-folded ordinal scale word.
pub fn multiply_ordinal_by_scale_chars(n: &IntegerValue, w: &Vec<char>) -> (r: Result<OrdinalValue, RuleError>)
    ensures
        r == ordinal_scaled_by_word(*n, w@),
{
    if n.value < 1 || n.value > 999 {
        return Err(RuleError::Invalid);
    }
    match multiplied_ordinal_scale_lookup(w) {
        Some((value, grain)) => {
            let multiple: i64 = if n.value == 6 && !is_lenited(w) { 1 } else { n.value };
            Ok(OrdinalValue::new_with_grain(multiple * value, grain))
        },
        None => Err(RuleError::Invalid),
    }
}

/// The grain of an ordinal, 0 when it has none.
pub open spec fn ordinal_grain(o: OrdinalValue) -> int {
    match o.grain {
        Some(g) => g as int,
        None => 0,
    }
}

/// The grain boundary above an ordinal's grain: the next multiple of three.
pub open spec fn next_grain(g: int) -> int {
    (g / 3) * 3 + 3
}

/// "dhá mhíle trí chéadú": a cardinal from 1,000 to 99,999,999,000 before an
/// ordinal of grain 2 or a multiple of 3, valid only when the cardinal is a
/// multiple of ten to the grain boundary above the ordinal's grain.
pub open spec fn large_ordinal(n: IntegerValue, o: OrdinalValue) -> Result<OrdinalValue, RuleError> {
    let g = ordinal_grain(o);
    if !(1000 <= n.value <= 99_999_999_000) || !(g == 2 || g % 3 == 0) || (n.value as int) % pow10(
        next_grain(g) as nat,
    ) != 0 {
        Err(RuleError::Invalid)
    } else if !fits_i64(n.value + o.value) {
        Err(RuleError::Overflow)
    } else {
        Ok(OrdinalValue::plain((n.value + o.value) as i64))
    }
}

pub fn compose_large_ordinal(n: &IntegerValue, o: &OrdinalValue) -> (r: Result<OrdinalValue, RuleError>)
    ensures
        r == large_ordinal(*n, *o),
{
    let g: u32 = match o.grain {
        Some(g) => g as u32,
        None => 0,
    };
    if n.value < 1000 || n.value > 99_999_999_000 || !(g == 2 || g % 3 == 0) {
        return Err(RuleError::Invalid);
    }
    let next: u32 = (g / 3) * 3 + 3;
    if next > MAX_SCALE {
        proof {
            lemma_pow10_monotone(19, next as nat);
            reveal_with_fuel(pow10, 20);
            lemma_fundamental_div_mod_converse(
                n.value as int,
                pow10(next as nat),
                0,
                n.value as int,
            );
        }
        return Err(RuleError::Invalid);
    }
    let p = pow10_exec(next);
    proof {
        lemma_pow10_bounds(next as nat);
    }
    if n.value % p != 0 {
        return Err(RuleError::Invalid);
    }
    match n.value.checked_add(o.value) {
        Some(v) => Ok(OrdinalValue::new(v)),
        None => Err(RuleError::Overflow),
    }
}

/// "céad is a haonú": a cardinal that is at least a hundred or a multiple of a
/// hundred, then an ordinal from 1 to 99.
pub open spec fn small_ordinal(n: IntegerValue, o: OrdinalValue) -> Result<OrdinalValue, RuleError> {
    if !(n.value >= 100 || n.value % 100 == 0) || !(1 <= o.value <= 99) {
        Err(RuleError::Invalid)
    } else if !fits_i64(n.value + o.value) {
        Err(RuleError::Overflow)
    } else {
        Ok(OrdinalValue::plain((n.value + o.value) as i64))
    }
}

pub fn compose_small_ordinal(n: &IntegerValue, o: &OrdinalValue) -> (r: Result<OrdinalValue, RuleError>)
    ensures
        r == small_ordinal(*n, *o),
{
    let round: bool = if n.value >= 100 {
        true
    } else if n.value >= 0 {
        n.value % 100 == 0
    } else if n.value > i64::MIN {
        let a: i64 = -n.value;
        proof {
            if a % 100 == 0 {
                lemma_fundamental_div_mod(a as int, 100);
                lemma_fundamental_div_mod_converse(n.value as int, 100, -(a / 100), 0);
            }
            if n.value % 100 == 0 {
                lemma_fundamental_div_mod(n.value as int, 100);
                lemma_fundamental_div_mod_converse(a as int, 100, -(n.value / 100), 0);
            }
        }
        a % 100 == 0
    } else {
        proof {
            lemma_fundamental_div_mod_converse(n.value as int, 100, -92233720368547759, 92);
        }
        false
    };
    if !round || o.value < 1 || o.value > 99 {
        return Err(RuleError::Invalid);
    }
    match n.value.checked_add(o.value) {
        Some(v) => Ok(OrdinalValue::new(v)),
        None => Err(RuleError::Overflow),
    }
}

/// "an tríú": the article marks the ordinal as prefixed.
pub fn the_ordinal(o: &OrdinalValue) -> (r: OrdinalValue)
    ensures
        r == (OrdinalValue { prefixed: true, ..*o }),
{
    OrdinalValue { prefixed: true, ..*o }
}

} // verus!

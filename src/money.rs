//! Money algebra: attaching currencies to amounts, composing major and minor
//! units, and precision modifiers.
use vstd::prelude::*;
use crate::dimension::{
    combine_precision, combined, fits_i64, lemma_pow10_bounds, lemma_pow10_add, pow10,
    pow10_exec, AmountOfMoneyValue, Decimal, MoneyUnit, MoneyUnitValue, NumberValue, Precision,
    RuleError, MAX_SCALE,
};
use crate::lexicon::{money_unit_lookup, money_unit_of};
use crate::text::{fold, folded};

verus! {

/// The currency a unit word names, looked up with its accents folded.
pub fn money_unit_word(word: &str) -> (r: Option<MoneyUnitValue>)
    ensures
        r matches Some(u) ==> money_unit_of(folded(word@)) is Some && u.unit == Some(
            money_unit_of(folded(word@))->0,
        ),
        r is None ==> money_unit_of(folded(word@)) is None,
{
    let w = fold(word);
    match money_unit_lookup(&w) {
        Some(u) => Some(MoneyUnitValue { unit: Some(u) }),
        None => None,
    }
}

/// "dollar 5" or "5 dollar": a bare number tagged with a currency, in either
/// surface order.
pub fn amount_with_unit(unit: &MoneyUnitValue, n: &NumberValue) -> (r: AmountOfMoneyValue)
    ensures
        r == (AmountOfMoneyValue { value: n.decimal(), unit: unit.unit, precision: n.precision() }),
{
    AmountOfMoneyValue { value: n.value(), unit: unit.unit, precision: n.get_precision() }
}

/// "thart ar" / "glan": the same amount with its precision overridden.
pub fn with_precision(a: &AmountOfMoneyValue, p: Precision) -> (r: AmountOfMoneyValue)
    ensures
        r == (AmountOfMoneyValue { precision: p, ..*a }),
{
    AmountOfMoneyValue { precision: p, ..*a }
}

/// `major + minor / 100` as an exact decimal, at the finer of the two scales.
pub open spec fn plus_hundredth(major: Decimal, minor: Decimal) -> Option<Decimal> {
    let s = if major.scale >= minor.scale + 2 { major.scale as int } else { minor.scale + 2 };
    let m = major.mantissa * pow10((s - major.scale) as nat) + minor.mantissa * pow10(
        (s - minor.scale - 2) as nat,
    );
    if s > MAX_SCALE || !fits_i64(m) {
        None
    } else {
        Some(Decimal { mantissa: m as i64, scale: s as u32 })
    }
}

fn add_hundredth(major: Decimal, minor: Decimal) -> (r: Option<Decimal>)
    requires
        major.wf(),
        minor.wf(),
    ensures
        r == plus_hundredth(major, minor),
{
    let s: u32 = if major.scale >= minor.scale + 2 { major.scale } else { minor.scale + 2 };
    if s > MAX_SCALE {
        return None;
    }
    let p = pow10_exec(s - major.scale);
    let q = pow10_exec(s - minor.scale - 2);
    proof {
        lemma_pow10_bounds((s - major.scale) as nat);
        lemma_pow10_bounds((s - minor.scale - 2) as nat);
        assert(-9_223_372_036_854_775_808 * 1_000_000_000_000_000_000 <= major.mantissa * p
            <= 9_223_372_036_854_775_807 * 1_000_000_000_000_000_000) by (nonlinear_arith)
            requires
                1 <= p <= 1_000_000_000_000_000_000,
                i64::MIN <= major.mantissa <= i64::MAX,
        ;
        assert(-9_223_372_036_854_775_808 * 1_000_000_000_000_000_000 <= minor.mantissa * q
            <= 9_223_372_036_854_775_807 * 1_000_000_000_000_000_000) by (nonlinear_arith)
            requires
                1 <= q <= 1_000_000_000_000_000_000,
                i64::MIN <= minor.mantissa <= i64::MAX,
        ;
    }
    let wide: i128 = (major.mantissa as i128) * (p as i128) + (minor.mantissa as i128) * (q as i128);
    if wide < i64::MIN as i128 || wide > i64::MAX as i128 {
        return None;
    }
    Some(Decimal { mantissa: wide as i64, scale: s })
}

/// "2 dollar 50 cent": an amount intersected with an amount in cents is the
/// amount plus a hundredth of the cents, in the first amount's currency.
pub open spec fn money_composed(a: AmountOfMoneyValue, b: AmountOfMoneyValue) -> Result<AmountOfMoneyValue, RuleError> {
    if b.unit != Some(MoneyUnit::Cent) {
        Err(RuleError::Invalid)
    } else {
        match plus_hundredth(a.value, b.value) {
            Some(v) => Ok(
                AmountOfMoneyValue { value: v, unit: a.unit, precision: combined(a.precision, b.precision) },
            ),
            None => Err(RuleError::Overflow),
        }
    }
}

pub fn compose_money(a: &AmountOfMoneyValue, b: &AmountOfMoneyValue) -> (r: Result<AmountOfMoneyValue, RuleError>)
    requires
        a.value.wf(),
        b.value.wf(),
    ensures
        r == money_composed(*a, *b),
{
    match b.unit {
        Some(MoneyUnit::Cent) => {},
        _ => {
            return Err(RuleError::Invalid);
        },
    }
    match add_hundredth(a.value, b.value) {
        Some(v) => Ok(
            AmountOfMoneyValue {
                value: v,
                unit: a.unit,
                precision: combine_precision(a.precision, b.precision),
            },
        ),
        None => Err(RuleError::Overflow),
    }
}

/// "2 dollar 50": a bare trailing number counts as further cents of the amount.
pub open spec fn money_number_composed(a: AmountOfMoneyValue, n: NumberValue) -> Result<AmountOfMoneyValue, RuleError> {
    match plus_hundredth(a.value, n.decimal()) {
        Some(v) => Ok(
            AmountOfMoneyValue { value: v, unit: a.unit, precision: combined(a.precision, n.precision()) },
        ),
        None => Err(RuleError::Overflow),
    }
}

pub fn compose_money_number(a: &AmountOfMoneyValue, n: &NumberValue) -> (r: Result<AmountOfMoneyValue, RuleError>)
    requires
        a.value.wf(),
        n.wf(),
    ensures
        r == money_number_composed(*a, *n),
{
    match add_hundredth(a.value, n.value()) {
        Some(v) => Ok(
            AmountOfMoneyValue {
                value: v,
                unit: a.unit,
                precision: combine_precision(a.precision, n.get_precision()),
            },
        ),
        None => Err(RuleError::Overflow),
    }
}

/// An amount intersected with an amount of cents, and the same amount followed
/// by the bare number of those cents, give the same result: the amount plus a
/// hundredth of the cents, in the amount's currency.
pub proof fn lemma_cents_and_bare_number_agree(a: AmountOfMoneyValue, n: NumberValue)
    requires
        a.value.wf(),
        n.wf(),
    ensures
        money_composed(
            a,
            AmountOfMoneyValue { value: n.decimal(), unit: Some(MoneyUnit::Cent), precision: n.precision() },
        ) == money_number_composed(a, n),
        money_number_composed(a, n) matches Ok(r) ==> r.unit == a.unit && r.value.scale >= 2
            && r.value.mantissa * pow10(a.value.scale as nat) * pow10((n.decimal().scale + 2) as nat)
            == (a.value.mantissa * pow10((n.decimal().scale + 2) as nat) + n.decimal().mantissa
            * pow10(a.value.scale as nat)) * pow10(r.value.scale as nat),
{
    if let Ok(r) = money_number_composed(a, n) {
        let s = r.value.scale as nat;
        let sa = a.value.scale as nat;
        let sb = (n.decimal().scale + 2) as nat;
        let p = pow10((s - sa) as nat);
        let q = pow10((s - sb) as nat);
        lemma_pow10_add((s - sa) as nat, sa);
        lemma_pow10_add((s - sb) as nat, sb);
        let ma = a.value.mantissa as int;
        let mb = n.decimal().mantissa as int;
        let big = pow10(s);
        let ea = pow10(sa);
        let eb = pow10(sb);
        assert(ma * p * ea * eb == ma * big * eb) by (nonlinear_arith)
            requires
                big == p * ea,
        ;
        assert(mb * q * ea * eb == mb * big * ea) by (nonlinear_arith)
            requires
                big == q * eb,
        ;
        assert((ma * p + mb * q) * ea * eb == ma * p * ea * eb + mb * q * ea * eb)
            by (nonlinear_arith);
        assert((ma * eb + mb * ea) * big == ma * big * eb + mb * big * ea) by (nonlinear_arith);
    }
}

} // verus!

//! The closed set of values that rules produce, their shared metadata and the
//! typed conversion interface.
use vstd::prelude::*;
use crate::calendar::TimeValue;

verus! {

/// Ten to the power `n`.
pub open spec fn pow10(n: nat) -> int
    decreases n,
{
    if n == 0 {
        1
    } else {
        10 * pow10((n - 1) as nat)
    }
}

/// The largest scale a decimal may carry: ten to it still fits in an `i64`.
pub const MAX_SCALE: u32 = 18;

pub proof fn lemma_pow10_pos(n: nat)
    ensures
        pow10(n) >= 1,
    decreases n,
{
    if n > 0 {
        lemma_pow10_pos((n - 1) as nat);
    }
}

pub proof fn lemma_pow10_bounds(n: nat)
    ensures
        pow10(n) >= 1,
        n <= 18 ==> pow10(n) <= 1_000_000_000_000_000_000,
{
    lemma_pow10_pos(n);
    reveal_with_fuel(pow10, 19);
    assert(pow10(18) == 1_000_000_000_000_000_000);
    if n <= 18 {
        lemma_pow10_monotone(n, 18);
    }
}

pub proof fn lemma_pow10_add(a: nat, b: nat)
    ensures
        pow10(a + b) == pow10(a) * pow10(b),
    decreases a,
{
    if a > 0 {
        lemma_pow10_add((a - 1) as nat, b);
        assert(pow10(a + b) == 10 * pow10((a - 1 + b) as nat));
        assert(10 * (pow10((a - 1) as nat) * pow10(b)) == (10 * pow10((a - 1) as nat)) * pow10(b))
            by (nonlinear_arith);
    }
}

pub proof fn lemma_pow10_monotone(a: nat, b: nat)
    requires
        a <= b,
    ensures
        pow10(a) <= pow10(b),
    decreases b,
{
    if a < b {
        lemma_pow10_monotone(a, (b - 1) as nat);
        lemma_pow10_pos((b - 1) as nat);
    }
}

/// Ten to the power `n`, for `n` up to `MAX_SCALE`.
pub fn pow10_exec(n: u32) -> (r: i64)
    requires
        n <= MAX_SCALE,
    ensures
        r == pow10(n as nat),
{
    let mut r: i64 = 1;
    let mut i: u32 = 0;
    while i < n
        invariant
            i <= n <= MAX_SCALE,
            r == pow10(i as nat),
        decreases n - i,
    {
        proof {
            lemma_pow10_bounds(i as nat);
            lemma_pow10_bounds((i + 1) as nat);
        }
        r = r * 10;
        i = i + 1;
    }
    r
}

/// Whether a value computed over the integers fits in an `i64`.
pub open spec fn fits_i64(x: int) -> bool {
    i64::MIN <= x <= i64::MAX
}

/// Exact or approximate: an approximate component taints a composite.
#[derive(Copy, Clone, Debug, PartialEq, Eq, Structural)]
pub enum Precision {
    Exact,
    Approximate,
}

/// The precision of a value built from two components.
pub open spec fn combined(a: Precision, b: Precision) -> Precision {
    if a == Precision::Approximate || b == Precision::Approximate {
        Precision::Approximate
    } else {
        Precision::Exact
    }
}

pub fn combine_precision(a: Precision, b: Precision) -> (r: Precision)
    ensures
        r == combined(a, b),
{
    match (a, b) {
        (Precision::Exact, Precision::Exact) => Precision::Exact,
        _ => Precision::Approximate,
    }
}

/// An exact decimal number: `mantissa` divided by ten to the `scale`.
#[derive(Copy, Clone, Debug, PartialEq, Eq, Structural)]
pub struct Decimal {
    pub mantissa: i64,
    pub scale: u32,
}

impl Decimal {
    pub open spec fn wf(self) -> bool {
        self.scale <= MAX_SCALE
    }

    /// Both decimals stand for the same rational number.
    pub open spec fn same_value(self, o: Decimal) -> bool {
        self.mantissa * pow10(o.scale as nat) == o.mantissa * pow10(self.scale as nat)
    }

    /// The decimal is an integer `k`.
    pub open spec fn is_integer(self, k: int) -> bool {
        self.mantissa == k * pow10(self.scale as nat)
    }
}

/// Why a rule declined to fire.
#[derive(Copy, Clone, Debug, PartialEq, Eq, Structural)]
pub enum RuleError {
    /// The combination is not meaningful: a guard, a grain or a marker rejects it.
    Invalid,
    /// The value would not fit in the machine representation.
    Overflow,
}

/// A whole number, with the magnitude it was produced at.
#[derive(Copy, Clone, Debug, PartialEq, Eq, Structural)]
pub struct IntegerValue {
    pub value: i64,
    pub grain: Option<u8>,
    pub group: bool,
    pub prefixed: bool,
    pub suffixed: bool,
    pub precision: Precision,
}

impl IntegerValue {
    /// A plain exact integer with no grain.
    pub open spec fn plain(value: i64) -> IntegerValue {
        IntegerValue {
            value,
            grain: None,
            group: false,
            prefixed: false,
            suffixed: false,
            precision: Precision::Exact,
        }
    }

    pub fn new(value: i64) -> (r: IntegerValue)
        ensures
            r == IntegerValue::plain(value),
    {
        IntegerValue {
            value,
            grain: None,
            group: false,
            prefixed: false,
            suffixed: false,
            precision: Precision::Exact,
        }
    }

    pub fn new_with_grain(value: i64, grain: u8) -> (r: IntegerValue)
        ensures
            r == (IntegerValue { grain: Some(grain), ..IntegerValue::plain(value) }),
    {
        IntegerValue {
            value,
            grain: Some(grain),
            group: false,
            prefixed: false,
            suffixed: false,
            precision: Precision::Exact,
        }
    }
}

/// A decimal number.
#[derive(Copy, Clone, Debug, PartialEq, Eq, Structural)]
pub struct FloatValue {
    pub value: Decimal,
    pub prefixed: bool,
    pub suffixed: bool,
    pub precision: Precision,
}

impl FloatValue {
    /// A plain exact decimal.
    pub open spec fn plain(value: Decimal) -> FloatValue {
        FloatValue { value, prefixed: false, suffixed: false, precision: Precision::Exact }
    }

    pub fn new(value: Decimal) -> (r: FloatValue)
        ensures
            r == FloatValue::plain(value),
    {
        FloatValue { value, prefixed: false, suffixed: false, precision: Precision::Exact }
    }
}

/// What a number rule accepts: an integer or a decimal.
#[derive(Copy, Clone, Debug, PartialEq, Eq, Structural)]
pub enum NumberValue {
    Integer(IntegerValue),
    Float(FloatValue),
}

impl NumberValue {
    /// The number as a decimal.
    pub open spec fn decimal(self) -> Decimal {
        match self {
            NumberValue::Integer(i) => Decimal { mantissa: i.value, scale: 0 },
            NumberValue::Float(f) => f.value,
        }
    }

    pub open spec fn wf(self) -> bool {
        self.decimal().wf()
    }

    pub open spec fn grain(self) -> Option<u8> {
        match self {
            NumberValue::Integer(i) => i.grain,
            NumberValue::Float(_) => None,
        }
    }

    pub open spec fn prefixed(self) -> bool {
        match self {
            NumberValue::Integer(i) => i.prefixed,
            NumberValue::Float(f) => f.prefixed,
        }
    }

    pub open spec fn suffixed(self) -> bool {
        match self {
            NumberValue::Integer(i) => i.suffixed,
            NumberValue::Float(f) => f.suffixed,
        }
    }

    pub open spec fn precision(self) -> Precision {
        match self {
            NumberValue::Integer(i) => i.precision,
            NumberValue::Float(f) => f.precision,
        }
    }

    pub fn value(&self) -> (r: Decimal)
        ensures
            r == self.decimal(),
    {
        match self {
            NumberValue::Integer(i) => Decimal { mantissa: i.value, scale: 0 },
            NumberValue::Float(f) => f.value,
        }
    }

    pub fn get_precision(&self) -> (r: Precision)
        ensures
            r == self.precision(),
    {
        match self {
            NumberValue::Integer(i) => i.precision,
            NumberValue::Float(f) => f.precision,
        }
    }
}

/// An ordinal number ("third", "hundredth").
#[derive(Copy, Clone, Debug, PartialEq, Eq, Structural)]
pub struct OrdinalValue {
    pub value: i64,
    pub grain: Option<u8>,
    pub prefixed: bool,
}

impl OrdinalValue {
    pub open spec fn plain(value: i64) -> OrdinalValue {
        OrdinalValue { value, grain: None, prefixed: false }
    }

    pub fn new(value: i64) -> (r: OrdinalValue)
        ensures
            r == OrdinalValue::plain(value),
    {
        OrdinalValue { value, grain: None, prefixed: false }
    }

    pub fn new_with_grain(value: i64, grain: u8) -> (r: OrdinalValue)
        ensures
            r == (OrdinalValue { grain: Some(grain), ..OrdinalValue::plain(value) }),
    {
        OrdinalValue { value, grain: Some(grain), prefixed: false }
    }
}

/// The currencies that amounts can be tagged with; `Cent` is the minor unit.
#[derive(Copy, Clone, Debug, PartialEq, Eq, Structural)]
pub enum MoneyUnit {
    Dollar,
    Usd,
    Aud,
    Cad,
    Hkd,
    Eur,
    Pound,
    Gbp,
    Chf,
    Kr,
    Dkk,
    Nok,
    Sek,
    Rub,
    Inr,
    Jpy,
    Cny,
    Yen,
    Krw,
    Bitcoin,
    Cent,
}

/// A currency word on its own.
#[derive(Copy, Clone, Debug, PartialEq, Eq, Structural)]
pub struct MoneyUnitValue {
    pub unit: Option<MoneyUnit>,
}

/// An amount, in a currency or not yet tied to one.
#[derive(Copy, Clone, Debug, PartialEq, Eq, Structural)]
pub struct AmountOfMoneyValue {
    pub value: Decimal,
    pub unit: Option<MoneyUnit>,
    pub precision: Precision,
}

/// A percentage.
#[derive(Copy, Clone, Debug, PartialEq, Eq, Structural)]
pub struct PercentageValue {
    pub value: Decimal,
}

/// The variant a dimension value belongs to.
#[derive(Copy, Clone, Debug, PartialEq, Eq, Structural)]
pub enum DimensionKind {
    Integer,
    Float,
    Ordinal,
    AmountOfMoney,
    MoneyUnit,
    Percentage,
    Time,
}

/// A value produced by a rule.
#[derive(Clone, Debug, PartialEq)]
pub enum Dimension {
    Integer(IntegerValue),
    Float(FloatValue),
    Ordinal(OrdinalValue),
    AmountOfMoney(AmountOfMoneyValue),
    MoneyUnit(MoneyUnitValue),
    Percentage(PercentageValue),
    Time(TimeValue),
}

/// A conversion asked for one variant and found another.
#[derive(Copy, Clone, Debug, PartialEq, Eq, Structural)]
pub struct ConversionError {
    pub expected: DimensionKind,
    pub found: DimensionKind,
}

impl Dimension {
    pub open spec fn kind_of(self) -> DimensionKind {
        match self {
            Dimension::Integer(_) => DimensionKind::Integer,
            Dimension::Float(_) => DimensionKind::Float,
            Dimension::Ordinal(_) => DimensionKind::Ordinal,
            Dimension::AmountOfMoney(_) => DimensionKind::AmountOfMoney,
            Dimension::MoneyUnit(_) => DimensionKind::MoneyUnit,
            Dimension::Percentage(_) => DimensionKind::Percentage,
            Dimension::Time(_) => DimensionKind::Time,
        }
    }

    /// The outcome of asking for variant `k`: the value itself when it is of
    /// that variant, else an error naming both variants.
    pub open spec fn converted(self, k: DimensionKind) -> Result<Dimension, ConversionError> {
        if self.kind_of() == k {
            Ok(self)
        } else {
            Err(ConversionError { expected: k, found: self.kind_of() })
        }
    }

    pub fn kind(&self) -> (r: DimensionKind)
        ensures
            r == self.kind_of(),
    {
        match self {
            Dimension::Integer(_) => DimensionKind::Integer,
            Dimension::Float(_) => DimensionKind::Float,
            Dimension::Ordinal(_) => DimensionKind::Ordinal,
            Dimension::AmountOfMoney(_) => DimensionKind::AmountOfMoney,
            Dimension::MoneyUnit(_) => DimensionKind::MoneyUnit,
            Dimension::Percentage(_) => DimensionKind::Percentage,
            Dimension::Time(_) => DimensionKind::Time,
        }
    }

    fn mismatch(&self, expected: DimensionKind) -> (r: ConversionError)
        ensures
            r == (ConversionError { expected, found: self.kind_of() }),
    {
        ConversionError { expected, found: self.kind() }
    }

    pub fn as_integer(&self) -> (r: Result<IntegerValue, ConversionError>)
        ensures
            r is Ok <==> self.kind_of() == DimensionKind::Integer,
            r matches Ok(v) ==> *self == Dimension::Integer(v),
            r matches Err(e) ==> e == (ConversionError { expected: DimensionKind::Integer, found: self.kind_of() }),
    {
        match self {
            Dimension::Integer(v) => Ok(*v),
            _ => Err(self.mismatch(DimensionKind::Integer)),
        }
    }

    /// The integer's plain value.
    pub fn as_i64(&self) -> (r: Result<i64, ConversionError>)
        ensures
            r is Ok <==> self.kind_of() == DimensionKind::Integer,
            r matches Ok(v) ==> self is Integer && v == self->Integer_0.value,
            r matches Err(e) ==> e == (ConversionError { expected: DimensionKind::Integer, found: self.kind_of() }),
    {
        match self {
            Dimension::Integer(v) => Ok(v.value),
            _ => Err(self.mismatch(DimensionKind::Integer)),
        }
    }

    pub fn as_float(&self) -> (r: Result<FloatValue, ConversionError>)
        ensures
            r is Ok <==> self.kind_of() == DimensionKind::Float,
            r matches Ok(v) ==> *self == Dimension::Float(v),
            r matches Err(e) ==> e == (ConversionError { expected: DimensionKind::Float, found: self.kind_of() }),
    {
        match self {
            Dimension::Float(v) => Ok(*v),
            _ => Err(self.mismatch(DimensionKind::Float)),
        }
    }

    pub fn as_ordinal(&self) -> (r: Result<OrdinalValue, ConversionError>)
        ensures
            r is Ok <==> self.kind_of() == DimensionKind::Ordinal,
            r matches Ok(v) ==> *self == Dimension::Ordinal(v),
            r matches Err(e) ==> e == (ConversionError { expected: DimensionKind::Ordinal, found: self.kind_of() }),
    {
        match self {
            Dimension::Ordinal(v) => Ok(*v),
            _ => Err(self.mismatch(DimensionKind::Ordinal)),
        }
    }

    pub fn as_amount_of_money(&self) -> (r: Result<AmountOfMoneyValue, ConversionError>)
        ensures
            r is Ok <==> self.kind_of() == DimensionKind::AmountOfMoney,
            r matches Ok(v) ==> *self == Dimension::AmountOfMoney(v),
            r matches Err(e) ==> e == (ConversionError { expected: DimensionKind::AmountOfMoney, found: self.kind_of() }),
    {
        match self {
            Dimension::AmountOfMoney(v) => Ok(*v),
            _ => Err(self.mismatch(DimensionKind::AmountOfMoney)),
        }
    }

    pub fn as_money_unit(&self) -> (r: Result<MoneyUnitValue, ConversionError>)
        ensures
            r is Ok <==> self.kind_of() == DimensionKind::MoneyUnit,
            r matches Ok(v) ==> *self == Dimension::MoneyUnit(v),
            r matches Err(e) ==> e == (ConversionError { expected: DimensionKind::MoneyUnit, found: self.kind_of() }),
    {
        match self {
            Dimension::MoneyUnit(v) => Ok(*v),
            _ => Err(self.mismatch(DimensionKind::MoneyUnit)),
        }
    }

    pub fn as_percentage(&self) -> (r: Result<PercentageValue, ConversionError>)
        ensures
            r is Ok <==> self.kind_of() == DimensionKind::Percentage,
            r matches Ok(v) ==> *self == Dimension::Percentage(v),
            r matches Err(e) ==> e == (ConversionError { expected: DimensionKind::Percentage, found: self.kind_of() }),
    {
        match self {
            Dimension::Percentage(v) => Ok(*v),
            _ => Err(self.mismatch(DimensionKind::Percentage)),
        }
    }

    pub fn as_time(&self) -> (r: Result<TimeValue, ConversionError>)
        ensures
            r is Ok <==> self.kind_of() == DimensionKind::Time,
            r matches Ok(v) ==> *self == Dimension::Time(v),
            r matches Err(e) ==> e == (ConversionError { expected: DimensionKind::Time, found: self.kind_of() }),
    {
        match self {
            Dimension::Time(v) => Ok(v.clone_value()),
            _ => Err(self.mismatch(DimensionKind::Time)),
        }
    }

    /// An integer or a decimal, as a number rule would take it.
    pub fn as_number(&self) -> (r: Result<NumberValue, ConversionError>)
        ensures
            r matches Ok(n) ==> (self.kind_of() == DimensionKind::Integer && n == NumberValue::Integer(
                self->Integer_0,
            )) || (self.kind_of() == DimensionKind::Float && n == NumberValue::Float(
                self->Float_0,
            )),
            r matches Err(e) ==> self.kind_of() != DimensionKind::Integer && self.kind_of()
                != DimensionKind::Float && e == (ConversionError {
                expected: DimensionKind::Integer,
                found: self.kind_of(),
            }),
    {
        match self {
            Dimension::Integer(v) => Ok(NumberValue::Integer(*v)),
            Dimension::Float(v) => Ok(NumberValue::Float(*v)),
            _ => Err(self.mismatch(DimensionKind::Integer)),
        }
    }
}

impl Dimension {
    /// Whether two values are the same.
    pub fn same(&self, other: &Dimension) -> (r: bool)
        ensures
            r == (*self == *other),
    {
        match (self, other) {
            (Dimension::Integer(a), Dimension::Integer(b)) => *a == *b,
            (Dimension::Float(a), Dimension::Float(b)) => *a == *b,
            (Dimension::Ordinal(a), Dimension::Ordinal(b)) => *a == *b,
            (Dimension::AmountOfMoney(a), Dimension::AmountOfMoney(b)) => *a == *b,
            (Dimension::MoneyUnit(a), Dimension::MoneyUnit(b)) => *a == *b,
            (Dimension::Percentage(a), Dimension::Percentage(b)) => *a == *b,
            (Dimension::Time(a), Dimension::Time(b)) => a.form == b.form && a.predicate.same(
                &b.predicate,
            ),
            _ => false,
        }
    }

    /// A copy of the value.
    pub fn copy(&self) -> (r: Dimension)
        ensures
            r == *self,
    {
        match self {
            Dimension::Integer(a) => Dimension::Integer(*a),
            Dimension::Float(a) => Dimension::Float(*a),
            Dimension::Ordinal(a) => Dimension::Ordinal(*a),
            Dimension::AmountOfMoney(a) => Dimension::AmountOfMoney(*a),
            Dimension::MoneyUnit(a) => Dimension::MoneyUnit(*a),
            Dimension::Percentage(a) => Dimension::Percentage(*a),
            Dimension::Time(a) => Dimension::Time(a.clone_value()),
        }
    }
}

/// Asking a value for its own variant gives the value back; asking for any
/// other variant gives an error that names the variant asked for and the one found.
pub proof fn lemma_conversion_round_trip(d: Dimension, k: DimensionKind)
    ensures
        d.converted(d.kind_of()) == Ok::<Dimension, ConversionError>(d),
        k != d.kind_of() ==> d.converted(k) == Err::<Dimension, ConversionError>(
            ConversionError { expected: k, found: d.kind_of() },
        ),
        d.converted(k) is Ok <==> k == d.kind_of(),
{
}

} // verus!

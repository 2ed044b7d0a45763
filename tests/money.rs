use rustling_ontology_ga::dimension::{
    AmountOfMoneyValue, Decimal, FloatValue, IntegerValue, MoneyUnit, MoneyUnitValue, NumberValue,
    Precision, RuleError,
};
use rustling_ontology_ga::money::{
    amount_with_unit, compose_money, compose_money_number, money_unit_word, with_precision,
};

fn dollars(n: i64) -> AmountOfMoneyValue {
    amount_with_unit(
        &MoneyUnitValue { unit: Some(MoneyUnit::Dollar) },
        &NumberValue::Integer(IntegerValue::new(n)),
    )
}

#[test]
fn two_units_and_fifty_cents() {
    let cents = amount_with_unit(
        &money_unit_word("cent").unwrap(),
        &NumberValue::Integer(IntegerValue::new(50)),
    );
    let r = compose_money(&dollars(2), &cents).unwrap();
    assert_eq!(r.value, Decimal { mantissa: 250, scale: 2 });
    assert_eq!(r.unit, Some(MoneyUnit::Dollar));
}

#[test]
fn two_units_and_bare_fifty() {
    let r = compose_money_number(&dollars(2), &NumberValue::Integer(IntegerValue::new(50))).unwrap();
    assert_eq!(r.value, Decimal { mantissa: 250, scale: 2 });
    assert_eq!(r.unit, Some(MoneyUnit::Dollar));
}

#[test]
fn cents_must_be_cents() {
    assert_eq!(compose_money(&dollars(2), &dollars(50)), Err(RuleError::Invalid));
}

#[test]
fn money_overflow() {
    let cents = amount_with_unit(
        &MoneyUnitValue { unit: Some(MoneyUnit::Cent) },
        &NumberValue::Integer(IntegerValue::new(1)),
    );
    assert_eq!(compose_money(&dollars(i64::MAX), &cents), Err(RuleError::Overflow));
}

#[test]
fn decimal_amount_and_cents() {
    let a = amount_with_unit(
        &MoneyUnitValue { unit: Some(MoneyUnit::Eur) },
        &NumberValue::Float(FloatValue::new(Decimal { mantissa: 15, scale: 1 })),
    );
    let r = compose_money_number(&a, &NumberValue::Integer(IntegerValue::new(5))).unwrap();
    assert_eq!(r.value, Decimal { mantissa: 155, scale: 2 });
}

#[test]
fn unit_words() {
    assert_eq!(money_unit_word("dhollar").unwrap().unit, Some(MoneyUnit::Dollar));
    assert_eq!(money_unit_word("€").unwrap().unit, Some(MoneyUnit::Eur));
    assert_eq!(money_unit_word("bpingine").unwrap().unit, Some(MoneyUnit::Cent));
    assert_eq!(money_unit_word("¥").unwrap().unit, Some(MoneyUnit::Yen));
    assert_eq!(money_unit_word("madra"), None);
}

#[test]
fn precision_modifiers() {
    let a = dollars(5);
    let about = with_precision(&a, Precision::Approximate);
    assert_eq!(about.precision, Precision::Approximate);
    assert_eq!(about.value, a.value);
    assert_eq!(with_precision(&about, Precision::Exact), a);
}

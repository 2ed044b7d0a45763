use rustling_ontology_ga::calendar::easter;
use rustling_ontology_ga::dimension::{
    AmountOfMoneyValue, ConversionError, Decimal, Dimension, DimensionKind, FloatValue,
    IntegerValue, MoneyUnit, MoneyUnitValue, NumberValue, OrdinalValue, PercentageValue, Precision,
};
use rustling_ontology_ga::lang::Lang;

fn all_values() -> Vec<Dimension> {
    vec![
        Dimension::Integer(IntegerValue::new(21)),
        Dimension::Float(FloatValue::new(Decimal { mantissa: 25, scale: 1 })),
        Dimension::Ordinal(OrdinalValue::new(3)),
        Dimension::AmountOfMoney(AmountOfMoneyValue {
            value: Decimal { mantissa: 250, scale: 2 },
            unit: Some(MoneyUnit::Eur),
            precision: Precision::Exact,
        }),
        Dimension::MoneyUnit(MoneyUnitValue { unit: Some(MoneyUnit::Cent) }),
        Dimension::Percentage(PercentageValue { value: Decimal { mantissa: 5, scale: 0 } }),
        Dimension::Time(easter()),
    ]
}

#[test]
fn conversion_round_trip() {
    for d in all_values() {
        let k = d.kind();
        let results = [
            (DimensionKind::Integer, d.as_integer().is_ok(), d.as_integer().err()),
            (DimensionKind::Float, d.as_float().is_ok(), d.as_float().err()),
            (DimensionKind::Ordinal, d.as_ordinal().is_ok(), d.as_ordinal().err()),
            (DimensionKind::AmountOfMoney, d.as_amount_of_money().is_ok(), d.as_amount_of_money().err()),
            (DimensionKind::MoneyUnit, d.as_money_unit().is_ok(), d.as_money_unit().err()),
            (DimensionKind::Percentage, d.as_percentage().is_ok(), d.as_percentage().err()),
            (DimensionKind::Time, d.as_time().is_ok(), d.as_time().err()),
        ];
        for (asked, ok, err) in results {
            assert_eq!(ok, asked == k);
            if asked != k {
                assert_eq!(err, Some(ConversionError { expected: asked, found: k }));
            }
        }
    }
}

#[test]
fn conversions_give_the_value_back() {
    let d = Dimension::Integer(IntegerValue::new(21));
    assert_eq!(d.as_i64(), Ok(21));
    assert_eq!(d.as_integer(), Ok(IntegerValue::new(21)));
    assert_eq!(d.as_number(), Ok(NumberValue::Integer(IntegerValue::new(21))));
    let t = Dimension::Time(easter());
    assert_eq!(t.as_time(), Ok(easter()));
    assert_eq!(
        t.as_number(),
        Err(ConversionError { expected: DimensionKind::Integer, found: DimensionKind::Time })
    );
    assert!(d.same(&d.copy()));
    assert!(!d.same(&t));
}

#[test]
fn lang_codes() {
    assert_eq!("EN".parse::<Lang>(), Ok(Lang::EN));
    assert_eq!("fr".parse::<Lang>(), Ok(Lang::FR));
    assert_eq!("Es".parse::<Lang>(), Ok(Lang::ES));
    assert_eq!("de".parse::<Lang>(), Err("Unknown language de".to_string()));
    assert_eq!(Lang::EN.to_string(), "en");
    assert_eq!(Lang::FR.to_string(), "fr");
    assert_eq!(Lang::ES.to_string(), "es");
    assert_eq!(Lang::from_lowercase_code("EN"), None);
}

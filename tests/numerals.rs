use rustling_ontology_ga::dimension::{Decimal, IntegerValue, MoneyUnit, OrdinalValue};
use rustling_ontology_ga::matching::parse;
use rustling_ontology_ga::grammar::build_rule_set;
use rustling_ontology_ga::numerals::{
    decimal_numeral_exec, grouped_decimal_numeral_exec, grouped_numeral_exec, integer_numeral_exec,
    ordinal_numeral_exec,
};

fn chars(s: &str) -> Vec<char> {
    s.chars().collect()
}

#[test]
fn integers_in_digits() {
    assert_eq!(integer_numeral_exec(&chars("21")), Some(IntegerValue::new(21)));
    assert_eq!(integer_numeral_exec(&chars("007")), Some(IntegerValue::new(7)));
    assert_eq!(
        integer_numeral_exec(&chars("999999999999999999")),
        Some(IntegerValue::new(999_999_999_999_999_999))
    );
    assert_eq!(integer_numeral_exec(&chars("1234567890123456789")), None);
    assert_eq!(integer_numeral_exec(&chars("")), None);
    assert_eq!(integer_numeral_exec(&chars("12a")), None);
}

#[test]
fn integers_with_separators() {
    assert_eq!(grouped_numeral_exec(&chars("1,000")), Some(IntegerValue::new(1000)));
    assert_eq!(grouped_numeral_exec(&chars("12,345,678")), Some(IntegerValue::new(12_345_678)));
    assert_eq!(grouped_numeral_exec(&chars("1,00")), None);
    assert_eq!(grouped_numeral_exec(&chars("1000")), None);
    assert_eq!(grouped_numeral_exec(&chars("1234,000")), None);
    assert_eq!(grouped_numeral_exec(&chars("1,000,000,000,000,000,000")), None);
}

#[test]
fn decimals_in_digits() {
    assert_eq!(decimal_numeral_exec(&chars("3.14")).unwrap().value, Decimal { mantissa: 314, scale: 2 });
    assert_eq!(decimal_numeral_exec(&chars(".5")).unwrap().value, Decimal { mantissa: 5, scale: 1 });
    assert_eq!(decimal_numeral_exec(&chars("5.")), None);
    assert_eq!(decimal_numeral_exec(&chars("5")), None);
    assert_eq!(decimal_numeral_exec(&chars("1.2.3")), None);
}

#[test]
fn ordinals_in_digits() {
    assert_eq!(ordinal_numeral_exec(&chars("3u")), Some(OrdinalValue::new(3)));
    assert_eq!(ordinal_numeral_exec(&chars("21st")), Some(OrdinalValue::new(21)));
    assert_eq!(ordinal_numeral_exec(&chars("2adh")), Some(OrdinalValue::new(2)));
    assert_eq!(ordinal_numeral_exec(&chars("3x")), None);
    assert_eq!(ordinal_numeral_exec(&chars("st")), None);
}

#[test]
fn numerals_in_context() {
    let rules = build_rule_set().unwrap();
    let toks = |w: &[&str]| w.iter().map(|s| s.to_string()).collect::<Vec<String>>();
    let r = parse(&rules, &toks(&["5", "k"]));
    assert_eq!(r.len(), 1);
    assert_eq!(r[0].value.as_i64(), Ok(5000));
    let r = parse(&rules, &toks(&["2,500", "euro"]));
    assert_eq!(r.len(), 1);
    let a = r[0].value.as_amount_of_money().unwrap();
    assert_eq!(a.value, Decimal { mantissa: 2500, scale: 0 });
    assert_eq!(a.unit, Some(MoneyUnit::Eur));
    let r = parse(&rules, &toks(&["an", "3ú"]));
    assert_eq!(r.len(), 1);
    assert_eq!(r[0].value.as_ordinal().unwrap().value, 3);
    let r = parse(&rules, &toks(&["3", "ponc", "náid", "5"]));
    assert_eq!(r.len(), 1);
    assert_eq!(r[0].value.as_float().unwrap().value, Decimal { mantissa: 305, scale: 2 });
    let r = parse(&rules, &toks(&["3", "go", "leith"]));
    assert_eq!(r.len(), 1);
    assert_eq!(r[0].value.as_float().unwrap().value, Decimal { mantissa: 35, scale: 1 });
}

#[test]
fn decimals_with_separators() {
    use_grouped_decimal("1,234.5", Some(Decimal { mantissa: 12345, scale: 1 }));
    use_grouped_decimal("12,345,678.25", Some(Decimal { mantissa: 1234567825, scale: 2 }));
    use_grouped_decimal("1234.5", None);
    use_grouped_decimal("1,23.5", None);
    use_grouped_decimal("1,234.", None);
    use_grouped_decimal("1,234", None);
    use_grouped_decimal(",234.5", None);
}

fn use_grouped_decimal(s: &str, expected: Option<Decimal>) {
    assert_eq!(grouped_decimal_numeral_exec(&chars(s)).map(|f| f.value), expected);
}

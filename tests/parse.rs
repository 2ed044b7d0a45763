use rustling_ontology_ga::calendar::day_number_exec;
use rustling_ontology_ga::dimension::{Decimal, Dimension, MoneyUnit, OrdinalValue};
use rustling_ontology_ga::engine::{BuildError, Pattern, Production, RuleSetBuilder, WordClass};
use rustling_ontology_ga::matching::{candidates, parse};
use rustling_ontology_ga::grammar::{
    build_rule_set, rules_celebration, rules_finance, rules_numbers, rules_percentage,
};
use rustling_ontology_ga::resolve::Candidate;

fn tokens(words: &[&str]) -> Vec<String> {
    words.iter().map(|w| w.to_string()).collect()
}

fn only(words: &[&str]) -> Candidate {
    let rules = build_rule_set().unwrap();
    let found = parse(&rules, &tokens(words));
    assert_eq!(found.len(), 1, "{:?}", found);
    found[0].clone()
}

#[test]
fn three_hundred_and_five_parses() {
    let c = only(&["trí", "chéad", "agus", "cúig"]);
    assert_eq!((c.start, c.end), (0, 4));
    assert_eq!(c.value.as_i64(), Ok(305));
}

#[test]
fn three_hundred_parses_at_grain_two() {
    let c = only(&["trí", "chéad"]);
    let i = c.value.as_integer().unwrap();
    assert_eq!(i.value, 300);
    assert_eq!(i.grain, Some(2));
}

#[test]
fn tens_with_hyphen() {
    let c = only(&["fiche", "-", "trí"]);
    assert_eq!(c.value.as_i64(), Ok(23));
}

#[test]
fn negative_number() {
    let c = only(&["míneas", "cúig"]);
    assert_eq!(c.value.as_i64(), Ok(-5));
}

#[test]
fn amount_with_cents() {
    let c = only(&["dhá", "dhollar", "agus", "caoga", "cent"]);
    assert_eq!((c.start, c.end), (0, 5));
    let a = c.value.as_amount_of_money().unwrap();
    assert_eq!(a.value, Decimal { mantissa: 250, scale: 2 });
    assert_eq!(a.unit, Some(MoneyUnit::Dollar));
}

#[test]
fn percent_phrase() {
    let c = only(&["fiche", "faoin", "gcéad"]);
    assert_eq!(c.value.as_percentage().unwrap().value, Decimal { mantissa: 20, scale: 0 });
}

#[test]
fn easter_phrase() {
    let c = only(&["domhnach", "cásca"]);
    let t = c.value.as_time().unwrap();
    assert!(t.occurs_on(2024, day_number_exec(2024, 3, 31)));
}

#[test]
fn first_sunday_of_advent_phrase() {
    let c = only(&["an", "chéad", "domhnach", "den", "aidbhint"]);
    assert_eq!((c.start, c.end), (0, 5));
    let t = c.value.as_time().unwrap();
    assert!(t.occurs_on(2024, day_number_exec(2024, 12, 1)));
    assert!(!t.occurs_on(2024, day_number_exec(2024, 12, 8)));
}

#[test]
fn ordinal_with_article() {
    let c = only(&["an", "tríú"]);
    let mut expected = OrdinalValue::new(3);
    expected.prefixed = true;
    assert_eq!(c.value, Dimension::Ordinal(expected));
}

#[test]
fn nothing_recognised() {
    let rules = build_rule_set().unwrap();
    assert_eq!(parse(&rules, &tokens(&["madra", "mór"])), Vec::<Candidate>::new());
    assert_eq!(parse(&rules, &Vec::new()), Vec::<Candidate>::new());
}

#[test]
fn candidates_keep_sub_phrases() {
    let rules = build_rule_set().unwrap();
    let all = candidates(&rules, &tokens(&["trí", "chéad"]));
    assert!(all.iter().any(|c| c.start == 0 && c.end == 1 && c.value.as_i64() == Ok(3)));
    assert!(all.iter().any(|c| c.start == 0 && c.end == 2 && c.value.as_i64() == Ok(300)));
}

#[test]
fn locale_pack_registers_every_table() {
    let mut b = RuleSetBuilder::new();
    assert_eq!(rules_numbers(&mut b), Ok(()));
    assert_eq!(rules_percentage(&mut b), Ok(()));
    assert_eq!(rules_finance(&mut b), Ok(()));
    assert_eq!(rules_celebration(&mut b), Ok(()));
    assert_eq!(b.build().len(), build_rule_set().unwrap().len());
}

#[test]
fn builder_rejects_malformed_rules() {
    let mut b = RuleSetBuilder::new();
    assert_eq!(b.rule(vec![], Production::IntegerWord), Err(BuildError::Arity));
    assert_eq!(b.rule(vec![Pattern::Value; 5], Production::ComposeNumbers), Err(BuildError::Arity));
    assert_eq!(b.rule(vec![Pattern::Value], Production::Negate), Err(BuildError::NonLexicalTerminal));
    assert_eq!(b.rule(vec![Pattern::Word(WordClass::Minus), Pattern::Value], Production::Negate), Ok(()));
    assert_eq!(b.build().len(), 1);
}

#[test]
fn capitals_and_accents_are_folded() {
    let c = only(&["Domhnach", "CÁSCA"]);
    let t = c.value.as_time().unwrap();
    assert!(t.occurs_on(2025, day_number_exec(2025, 4, 20)));
    let n = only(&["Trí", "Chéad"]);
    assert_eq!(n.value.as_i64(), Ok(300));
}

#[test]
fn zero_words_after_the_point() {
    let c = only(&["3", "ponc", "a", "náid", "5"]);
    assert_eq!(c.value.as_float().unwrap().value, Decimal { mantissa: 305, scale: 2 });
    let c = only(&["3", "ponc", "náid", "náid", "5"]);
    assert_eq!((c.start, c.end), (0, 5));
    assert_eq!(c.value.as_float().unwrap().value, Decimal { mantissa: 3005, scale: 3 });
    let c = only(&["trí", "ponc", "náid", "náid", "náid", "cúig"]);
    assert_eq!(c.value.as_float().unwrap().value, Decimal { mantissa: 30005, scale: 4 });
}

#[test]
fn homograph_gives_both_readings() {
    let rules = build_rule_set().unwrap();
    let found = parse(&rules, &tokens(&["chéad"]));
    assert_eq!(found.len(), 2);
    let i = found[0].value.as_integer().unwrap();
    assert_eq!((i.value, i.grain), (100, Some(2)));
    assert_eq!(found[1].value, Dimension::Ordinal(OrdinalValue::new(1)));
    assert_eq!((found[0].start, found[0].end, found[1].start, found[1].end), (0, 1, 0, 1));
}

#[test]
fn amount_then_bare_cents() {
    let c = only(&["2", "euro", "50"]);
    assert_eq!((c.start, c.end), (0, 3));
    let a = c.value.as_amount_of_money().unwrap();
    assert_eq!(a.value, Decimal { mantissa: 250, scale: 2 });
    assert_eq!(a.unit, Some(MoneyUnit::Eur));
}

#[test]
fn approximate_stays_approximate_through_suffix() {
    let c = only(&["roinnt", "go", "leith", "k"]);
    let i = c.value.as_integer().unwrap();
    assert_eq!(i.value, 3500);
    assert!(i.suffixed);
    assert_eq!(i.precision, rustling_ontology_ga::dimension::Precision::Approximate);
}

#[test]
fn decimal_with_separators_parses() {
    let c = only(&["1,234.5"]);
    assert_eq!(c.value.as_float().unwrap().value, Decimal { mantissa: 12345, scale: 1 });
}

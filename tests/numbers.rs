use rustling_ontology_ga::dimension::{
    Decimal, FloatValue, IntegerValue, NumberValue, OrdinalValue, Precision, RuleError,
};
use rustling_ontology_ga::number::{
    and_a_half, and_a_quarter, apply_suffix, compose_dotted, compose_large_ordinal,
    compose_numbers, compose_ordinal_tens, compose_small_ordinal, compose_tens, integer_word,
    mark_positive, multiply_by_scale_word, multiply_group, multiply_ordinal_by_scale_word, negate,
    ordinal_word, percentage, the_ordinal,
};

fn plain(v: i64) -> IntegerValue {
    IntegerValue::new(v)
}

fn grained(v: i64, g: u8) -> IntegerValue {
    IntegerValue::new_with_grain(v, g)
}

#[test]
fn three_hundred_is_a_single_scale_rule() {
    let three = integer_word("trí").unwrap();
    let r = multiply_by_scale_word(&three, "chéad").unwrap();
    assert_eq!(r.value, 300);
    assert_eq!(r.grain, Some(2));
}

#[test]
fn three_hundred_and_five() {
    let three_hundred = multiply_by_scale_word(&integer_word("trí").unwrap(), "chéad").unwrap();
    let five = integer_word("cúig").unwrap();
    let r = compose_numbers(&NumberValue::Integer(three_hundred), &NumberValue::Integer(five)).unwrap();
    match r {
        NumberValue::Integer(i) => {
            assert_eq!(i.value, 305);
            assert_eq!(i.grain, None);
        }
        _ => panic!("expected an integer"),
    }
}

#[test]
fn compose_rejects_equal_or_higher_grain() {
    for ga in 0u8..10 {
        for gb in ga..12 {
            let a = NumberValue::Integer(grained(1000, ga));
            let b = NumberValue::Integer(grained(1, gb));
            assert_eq!(compose_numbers(&a, &b), Err(RuleError::Invalid));
        }
    }
}

#[test]
fn compose_rejects_value_above_grain() {
    let a = NumberValue::Integer(grained(100, 2));
    let b = NumberValue::Integer(plain(120));
    assert_eq!(compose_numbers(&a, &b), Err(RuleError::Invalid));
    let c = NumberValue::Integer(plain(99));
    assert_eq!(compose_numbers(&a, &c), Ok(NumberValue::Integer(plain(199))));
}

#[test]
fn compose_with_decimal_and_taints_precision() {
    let mut a = grained(100, 2);
    a.precision = Precision::Approximate;
    let b = NumberValue::Float(FloatValue::new(Decimal { mantissa: 25, scale: 1 }));
    let r = compose_numbers(&NumberValue::Integer(a), &b).unwrap();
    match r {
        NumberValue::Float(f) => {
            assert_eq!(f.value, Decimal { mantissa: 1025, scale: 1 });
            assert_eq!(f.precision, Precision::Approximate);
        }
        _ => panic!("expected a decimal"),
    }
    let f = NumberValue::Float(FloatValue::new(Decimal { mantissa: 1, scale: 0 }));
    assert_eq!(compose_numbers(&f, &NumberValue::Integer(plain(1))), Err(RuleError::Invalid));
}

#[test]
fn compose_overflow() {
    let a = NumberValue::Integer(grained(i64::MAX, 200));
    assert_eq!(compose_numbers(&a, &NumberValue::Integer(plain(1))), Err(RuleError::Overflow));
}

#[test]
fn six_needs_lenition_to_multiply() {
    let six = integer_word("sé").unwrap();
    assert_eq!(multiply_by_scale_word(&six, "chéad").unwrap().value, 600);
    assert_eq!(multiply_by_scale_word(&six, "céad").unwrap().value, 100);
    let two = integer_word("dhá").unwrap();
    assert_eq!(multiply_by_scale_word(&two, "mhíle").unwrap().value, 2000);
    assert_eq!(multiply_by_scale_word(&two, "mhíle").unwrap().grain, Some(3));
    assert_eq!(multiply_by_scale_word(&plain(5), "milliún").unwrap().value, 5_000_000);
    assert_eq!(multiply_by_scale_word(&plain(7), "mbilliún").unwrap().value, 7_000_000_000);
    assert_eq!(multiply_by_scale_word(&plain(1000), "céad"), Err(RuleError::Invalid));
    assert_eq!(multiply_by_scale_word(&plain(3), "cat"), Err(RuleError::Invalid));
}

#[test]
fn words() {
    assert_eq!(integer_word("náid"), Some(grained(0, 1)));
    assert_eq!(integer_word("naoi"), Some(grained(9, 1)));
    assert_eq!(integer_word("t-ocht"), Some(grained(8, 1)));
    assert_eq!(integer_word("seachtò"), Some(grained(70, 1)));
    assert_eq!(integer_word("míle"), Some(grained(1000, 3)));
    let few = integer_word("roinnt").unwrap();
    assert_eq!(few.value, 3);
    assert_eq!(few.precision, Precision::Approximate);
    let dozen = integer_word("dosaen").unwrap();
    assert_eq!(dozen.value, 12);
    assert!(dozen.group);
    assert_eq!(integer_word("madra"), None);
}

#[test]
fn tens_and_units() {
    assert_eq!(compose_tens(&plain(20), &plain(1)), Ok(plain(21)));
    assert_eq!(compose_tens(&plain(25), &plain(1)), Err(RuleError::Invalid));
    assert_eq!(compose_tens(&plain(90), &plain(10)), Err(RuleError::Invalid));
}

#[test]
fn dozens() {
    let dozen = integer_word("dosaen").unwrap();
    let r = multiply_group(&plain(3), &dozen).unwrap();
    assert_eq!(r.value, 36);
    assert!(r.group);
    assert_eq!(r.grain, Some(1));
    assert_eq!(multiply_group(&plain(3), &plain(12)), Err(RuleError::Invalid));
    assert_eq!(multiply_group(&plain(100), &dozen), Err(RuleError::Invalid));
}

#[test]
fn sign_rule_fires_once() {
    let n = NumberValue::Integer(plain(5));
    let once = negate(&n).unwrap();
    match once {
        NumberValue::Integer(i) => {
            assert_eq!(i.value, -5);
            assert!(i.prefixed);
        }
        _ => panic!("expected an integer"),
    }
    assert_eq!(negate(&once), Err(RuleError::Invalid));
    assert_eq!(mark_positive(&once), Err(RuleError::Invalid));
    let plus = mark_positive(&n).unwrap();
    assert_eq!(negate(&plus), Err(RuleError::Invalid));
    let f = NumberValue::Float(FloatValue::new(Decimal { mantissa: 15, scale: 1 }));
    match negate(&f).unwrap() {
        NumberValue::Float(x) => assert_eq!(x.value, Decimal { mantissa: -15, scale: 1 }),
        _ => panic!("expected a decimal"),
    }
    assert_eq!(negate(&NumberValue::Integer(plain(i64::MIN))), Err(RuleError::Overflow));
}

#[test]
fn suffix_rule_fires_once() {
    let n = NumberValue::Integer(plain(3));
    let k = apply_suffix(&n, "k").unwrap();
    match k {
        NumberValue::Integer(i) => {
            assert_eq!(i.value, 3000);
            assert!(i.suffixed);
        }
        _ => panic!("expected an integer"),
    }
    assert_eq!(apply_suffix(&k, "m"), Err(RuleError::Invalid));
    assert_eq!(apply_suffix(&n, "x"), Err(RuleError::Invalid));
    assert_eq!(apply_suffix(&NumberValue::Integer(plain(i64::MAX)), "g"), Err(RuleError::Overflow));
}

#[test]
fn suffix_on_decimal_normalises_to_integer() {
    let f = NumberValue::Float(FloatValue::new(Decimal { mantissa: 25, scale: 1 }));
    match apply_suffix(&f, "k").unwrap() {
        NumberValue::Integer(i) => {
            assert_eq!(i.value, 2500);
            assert!(i.suffixed);
        }
        _ => panic!("expected an integer"),
    }
    let g = NumberValue::Float(FloatValue::new(Decimal { mantissa: -12345, scale: 4 }));
    match apply_suffix(&g, "k").unwrap() {
        NumberValue::Float(x) => {
            assert_eq!(x.value, Decimal { mantissa: -12345000, scale: 4 });
            assert!(x.suffixed);
        }
        _ => panic!("expected a decimal"),
    }
    let h = NumberValue::Float(FloatValue::new(Decimal { mantissa: -25, scale: 1 }));
    match apply_suffix(&h, "m").unwrap() {
        NumberValue::Integer(i) => assert_eq!(i.value, -2_500_000),
        _ => panic!("expected an integer"),
    }
}

#[test]
fn halves_and_quarters() {
    assert_eq!(
        and_a_half(&plain(3)).unwrap().value,
        Decimal { mantissa: 35, scale: 1 }
    );
    assert_eq!(
        and_a_quarter(&plain(3)).unwrap().value,
        Decimal { mantissa: 325, scale: 2 }
    );
    assert_eq!(and_a_half(&plain(i64::MAX)), Err(RuleError::Overflow));
}

#[test]
fn dotted_decimals() {
    assert_eq!(
        compose_dotted(&plain(3), 0, &plain(14)).unwrap().value,
        Decimal { mantissa: 314, scale: 2 }
    );
    assert_eq!(
        compose_dotted(&plain(3), 2, &plain(5)).unwrap().value,
        Decimal { mantissa: 3005, scale: 3 }
    );
    assert_eq!(
        compose_dotted(&plain(0), 1, &plain(0)).unwrap().value,
        Decimal { mantissa: 0, scale: 2 }
    );
    let mut signed = plain(3);
    signed.prefixed = true;
    assert_eq!(compose_dotted(&signed, 0, &plain(1)), Err(RuleError::Invalid));
    assert_eq!(compose_dotted(&plain(3), 18, &plain(1)), Err(RuleError::Overflow));
}

#[test]
fn ordinals() {
    assert_eq!(ordinal_word("tríú"), Some(OrdinalValue::new(3)));
    assert_eq!(ordinal_word("fichiú"), Some(OrdinalValue::new(20)));
    assert_eq!(ordinal_word("céadú"), Some(OrdinalValue::new_with_grain(100, 2)));
    assert_eq!(ordinal_word("madra"), None);
    assert_eq!(compose_ordinal_tens(&plain(20), &OrdinalValue::new(3)), Ok(OrdinalValue::new(23)));
    assert_eq!(compose_ordinal_tens(&plain(20), &OrdinalValue::new(10)), Err(RuleError::Invalid));
    assert_eq!(
        multiply_ordinal_by_scale_word(&plain(3), "chéadú"),
        Ok(OrdinalValue::new_with_grain(300, 2))
    );
    assert_eq!(
        multiply_ordinal_by_scale_word(&plain(6), "céadú"),
        Ok(OrdinalValue::new_with_grain(100, 2))
    );
    assert_eq!(the_ordinal(&OrdinalValue::new(3)).prefixed, true);
}

#[test]
fn large_ordinals_need_round_cardinals() {
    let hundredth = OrdinalValue::new_with_grain(300, 2);
    assert_eq!(compose_large_ordinal(&plain(2000), &hundredth), Ok(OrdinalValue::new(2300)));
    assert_eq!(compose_large_ordinal(&plain(2500), &hundredth), Err(RuleError::Invalid));
    let thousandth = OrdinalValue::new_with_grain(3000, 3);
    assert_eq!(compose_large_ordinal(&plain(2_000_000), &thousandth), Ok(OrdinalValue::new(2_003_000)));
    assert_eq!(compose_large_ordinal(&plain(2_000), &thousandth), Err(RuleError::Invalid));
    assert_eq!(compose_large_ordinal(&plain(500), &hundredth), Err(RuleError::Invalid));
}

#[test]
fn small_ordinals() {
    assert_eq!(compose_small_ordinal(&plain(100), &OrdinalValue::new(1)), Ok(OrdinalValue::new(101)));
    assert_eq!(compose_small_ordinal(&plain(50), &OrdinalValue::new(1)), Err(RuleError::Invalid));
    assert_eq!(compose_small_ordinal(&plain(-200), &OrdinalValue::new(1)), Ok(OrdinalValue::new(-199)));
    assert_eq!(compose_small_ordinal(&plain(100), &OrdinalValue::new(100)), Err(RuleError::Invalid));
}

#[test]
fn percentages() {
    let p = percentage(&NumberValue::Integer(plain(20)));
    assert_eq!(p.value, Decimal { mantissa: 20, scale: 0 });
}

#[test]
fn suffix_keeps_approximate_precision() {
    let mut f = FloatValue::new(Decimal { mantissa: 35, scale: 1 });
    f.precision = Precision::Approximate;
    match apply_suffix(&NumberValue::Float(f), "k").unwrap() {
        NumberValue::Integer(i) => {
            assert_eq!(i.value, 3500);
            assert_eq!(i.precision, Precision::Approximate);
        }
        _ => panic!("expected an integer"),
    }
}

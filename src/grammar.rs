//! The Irish locale pack: the rules it registers into a rule set.
use vstd::prelude::*;
use crate::celebrations::Celebration;
use crate::engine::{BuildError, Pattern, Production, RuleSet, RuleSetBuilder, WordClass};

verus! {

/// A rule's pattern list of one pattern.
fn single(p: Pattern) -> (r: Vec<Pattern>)
    ensures
        r@ == seq![p],
{
    let mut r: Vec<Pattern> = Vec::new();
    r.push(p);
    r
}

/// The rules of numbers: cardinals, decimals, signs, suffixes and ordinals.
pub open spec fn number_rules() -> Seq<(Seq<Pattern>, Production)> {
    seq![
        (seq![Pattern::Value, Pattern::Word(WordClass::And), Pattern::Value], Production::ComposeNumbers),
        (seq![Pattern::Value, Pattern::Value], Production::ComposeNumbers),
        (seq![Pattern::Word(WordClass::IntegerWord)], Production::IntegerWord),
        (seq![Pattern::Value, Pattern::Value], Production::ComposeTens),
        (seq![Pattern::Value, Pattern::Word(WordClass::Dash), Pattern::Value], Production::ComposeTens),
        (seq![Pattern::Word(WordClass::IntegerNumeral)], Production::IntegerNumeral),
        (seq![Pattern::Word(WordClass::GroupedNumeral)], Production::GroupedNumeral),
        (seq![Pattern::Value, Pattern::Word(WordClass::Scale)], Production::MultiplyByScale),
        (seq![Pattern::Value, Pattern::Value], Production::MultiplyGroup),
        (seq![Pattern::Word(WordClass::DecimalNumeral)], Production::DecimalNumeral),
        (seq![Pattern::Word(WordClass::GroupedDecimalNumeral)], Production::GroupedDecimalNumeral),
        (seq![Pattern::Value, Pattern::Word(WordClass::Half)], Production::AndAHalf),
        (seq![Pattern::Value, Pattern::Word(WordClass::Quarter)], Production::AndAQuarter),
        (seq![Pattern::Value, Pattern::Word(WordClass::Point), Pattern::Value], Production::Dotted),
        (seq![Pattern::Value, Pattern::Word(WordClass::Point), Pattern::Word(WordClass::Zero), Pattern::Value], Production::DottedZeros),
        (seq![Pattern::Word(WordClass::Minus), Pattern::Value], Production::Negate),
        (seq![Pattern::Word(WordClass::Plus), Pattern::Value], Production::Positive),
        (seq![Pattern::Value, Pattern::Word(WordClass::Suffix)], Production::Suffix),
        (seq![Pattern::Word(WordClass::OrdinalWord)], Production::OrdinalWord),
        (seq![Pattern::Value, Pattern::Value], Production::OrdinalTens),
        (seq![Pattern::Value, Pattern::Word(WordClass::Dash), Pattern::Value], Production::OrdinalTens),
        (seq![Pattern::Value, Pattern::Word(WordClass::OrdinalScale)], Production::OrdinalScale),
        (seq![Pattern::Value, Pattern::Value], Production::LargeOrdinal),
        (seq![Pattern::Value, Pattern::Value], Production::SmallOrdinal),
        (seq![Pattern::Value, Pattern::Word(WordClass::And), Pattern::Value], Production::SmallOrdinal),
        (seq![Pattern::Word(WordClass::OrdinalNumeral)], Production::OrdinalNumeral),
        (seq![Pattern::Word(WordClass::The), Pattern::Value], Production::TheOrdinal),
    ]
}

/// Registers the rules of numbers: cardinals, decimals, signs, suffixes and ordinals.
pub fn rules_numbers(b: &mut RuleSetBuilder) -> (r: Result<(), BuildError>)
    ensures
        r is Ok,
        final(b).rules() == old(b).rules() + number_rules(),
        old(b).wf() ==> final(b).wf(),
{
    let ghost start = b.rules();
    let ghost mut added: Seq<(Seq<Pattern>, Production)> = Seq::empty();
    // intersect (with and)
    b.rule(vec![Pattern::Value, Pattern::Word(WordClass::And), Pattern::Value], Production::ComposeNumbers)?;
    proof {
        added = added.push((seq![Pattern::Value, Pattern::Word(WordClass::And), Pattern::Value], Production::ComposeNumbers));
        assert(b.rules() =~= start + added);
    }
    // intersect
    b.rule(vec![Pattern::Value, Pattern::Value], Production::ComposeNumbers)?;
    proof {
        added = added.push((seq![Pattern::Value, Pattern::Value], Production::ComposeNumbers));
        assert(b.rules() =~= start + added);
    }
    // integer words: 0..10, 20..90, a few, a dozen, scale words
    b.rule(single(Pattern::Word(WordClass::IntegerWord)), Production::IntegerWord)?;
    proof {
        added = added.push((seq![Pattern::Word(WordClass::IntegerWord)], Production::IntegerWord));
        assert(b.rules() =~= start + added);
    }
    // integer 21..99
    b.rule(vec![Pattern::Value, Pattern::Value], Production::ComposeTens)?;
    proof {
        added = added.push((seq![Pattern::Value, Pattern::Value], Production::ComposeTens));
        assert(b.rules() =~= start + added);
    }
    // integer 21..99 with a hyphen
    b.rule(vec![Pattern::Value, Pattern::Word(WordClass::Dash), Pattern::Value], Production::ComposeTens)?;
    proof {
        added = added.push((seq![Pattern::Value, Pattern::Word(WordClass::Dash), Pattern::Value], Production::ComposeTens));
        assert(b.rules() =~= start + added);
    }
    // integer (numeric)
    b.rule(single(Pattern::Word(WordClass::IntegerNumeral)), Production::IntegerNumeral)?;
    proof {
        added = added.push((seq![Pattern::Word(WordClass::IntegerNumeral)], Production::IntegerNumeral));
        assert(b.rules() =~= start + added);
    }
    // integer with thousands separator ,
    b.rule(single(Pattern::Word(WordClass::GroupedNumeral)), Production::GroupedNumeral)?;
    proof {
        added = added.push((seq![Pattern::Word(WordClass::GroupedNumeral)], Production::GroupedNumeral));
        assert(b.rules() =~= start + added);
    }
    // 200..900, 2_000..9_000, 2_000_000..9_000_000_000
    b.rule(vec![Pattern::Value, Pattern::Word(WordClass::Scale)], Production::MultiplyByScale)?;
    proof {
        added = added.push((seq![Pattern::Value, Pattern::Word(WordClass::Scale)], Production::MultiplyByScale));
        assert(b.rules() =~= start + added);
    }
    // number dozen
    b.rule(vec![Pattern::Value, Pattern::Value], Production::MultiplyGroup)?;
    proof {
        added = added.push((seq![Pattern::Value, Pattern::Value], Production::MultiplyGroup));
        assert(b.rules() =~= start + added);
    }
    // decimal number
    b.rule(single(Pattern::Word(WordClass::DecimalNumeral)), Production::DecimalNumeral)?;
    proof {
        added = added.push((seq![Pattern::Word(WordClass::DecimalNumeral)], Production::DecimalNumeral));
        assert(b.rules() =~= start + added);
    }
    // decimal with thousands separator
    b.rule(single(Pattern::Word(WordClass::GroupedDecimalNumeral)), Production::GroupedDecimalNumeral)?;
    proof {
        added = added.push((seq![Pattern::Word(WordClass::GroupedDecimalNumeral)], Production::GroupedDecimalNumeral));
        assert(b.rules() =~= start + added);
    }
    // <integer> and a half
    b.rule(vec![Pattern::Value, Pattern::Word(WordClass::Half)], Production::AndAHalf)?;
    proof {
        added = added.push((seq![Pattern::Value, Pattern::Word(WordClass::Half)], Production::AndAHalf));
        assert(b.rules() =~= start + added);
    }
    // <integer> and a quarter
    b.rule(vec![Pattern::Value, Pattern::Word(WordClass::Quarter)], Production::AndAQuarter)?;
    proof {
        added = added.push((seq![Pattern::Value, Pattern::Word(WordClass::Quarter)], Production::AndAQuarter));
        assert(b.rules() =~= start + added);
    }
    // number dot number
    b.rule(vec![Pattern::Value, Pattern::Word(WordClass::Point), Pattern::Value], Production::Dotted)?;
    proof {
        added = added.push((seq![Pattern::Value, Pattern::Word(WordClass::Point), Pattern::Value], Production::Dotted));
        assert(b.rules() =~= start + added);
    }
    // number dot zero... number
    b.rule(vec![Pattern::Value, Pattern::Word(WordClass::Point), Pattern::Word(WordClass::Zero), Pattern::Value], Production::DottedZeros)?;
    proof {
        added = added.push((seq![Pattern::Value, Pattern::Word(WordClass::Point), Pattern::Word(WordClass::Zero), Pattern::Value], Production::DottedZeros));
        assert(b.rules() =~= start + added);
    }
    // numbers prefix with -, negative or minus
    b.rule(vec![Pattern::Word(WordClass::Minus), Pattern::Value], Production::Negate)?;
    proof {
        added = added.push((seq![Pattern::Word(WordClass::Minus), Pattern::Value], Production::Negate));
        assert(b.rules() =~= start + added);
    }
    // numbers prefix with +, positive
    b.rule(vec![Pattern::Word(WordClass::Plus), Pattern::Value], Production::Positive)?;
    proof {
        added = added.push((seq![Pattern::Word(WordClass::Plus), Pattern::Value], Production::Positive));
        assert(b.rules() =~= start + added);
    }
    // numbers suffixes (K, M, G)
    b.rule(vec![Pattern::Value, Pattern::Word(WordClass::Suffix)], Production::Suffix)?;
    proof {
        added = added.push((seq![Pattern::Value, Pattern::Word(WordClass::Suffix)], Production::Suffix));
        assert(b.rules() =~= start + added);
    }
    // ordinals (first..10th, 20th..90th, hundredth..)
    b.rule(single(Pattern::Word(WordClass::OrdinalWord)), Production::OrdinalWord)?;
    proof {
        added = added.push((seq![Pattern::Word(WordClass::OrdinalWord)], Production::OrdinalWord));
        assert(b.rules() =~= start + added);
    }
    // 21th..99th
    b.rule(vec![Pattern::Value, Pattern::Value], Production::OrdinalTens)?;
    proof {
        added = added.push((seq![Pattern::Value, Pattern::Value], Production::OrdinalTens));
        assert(b.rules() =~= start + added);
    }
    // 21th..99th with a hyphen
    b.rule(vec![Pattern::Value, Pattern::Word(WordClass::Dash), Pattern::Value], Production::OrdinalTens)?;
    proof {
        added = added.push((seq![Pattern::Value, Pattern::Word(WordClass::Dash), Pattern::Value], Production::OrdinalTens));
        assert(b.rules() =~= start + added);
    }
    // ordinal (200..900, 2_000..9_000, 2_000_000..9_000_000_000)
    b.rule(vec![Pattern::Value, Pattern::Word(WordClass::OrdinalScale)], Production::OrdinalScale)?;
    proof {
        added = added.push((seq![Pattern::Value, Pattern::Word(WordClass::OrdinalScale)], Production::OrdinalScale));
        assert(b.rules() =~= start + added);
    }
    // ordinal (1_1_000..9_999_999_000)
    b.rule(vec![Pattern::Value, Pattern::Value], Production::LargeOrdinal)?;
    proof {
        added = added.push((seq![Pattern::Value, Pattern::Value], Production::LargeOrdinal));
        assert(b.rules() =~= start + added);
    }
    // ordinal (101...9_999_999)
    b.rule(vec![Pattern::Value, Pattern::Value], Production::SmallOrdinal)?;
    proof {
        added = added.push((seq![Pattern::Value, Pattern::Value], Production::SmallOrdinal));
        assert(b.rules() =~= start + added);
    }
    // ordinal (101...9_999_999) with and
    b.rule(vec![Pattern::Value, Pattern::Word(WordClass::And), Pattern::Value], Production::SmallOrdinal)?;
    proof {
        added = added.push((seq![Pattern::Value, Pattern::Word(WordClass::And), Pattern::Value], Production::SmallOrdinal));
        assert(b.rules() =~= start + added);
    }
    // ordinal (digits)
    b.rule(single(Pattern::Word(WordClass::OrdinalNumeral)), Production::OrdinalNumeral)?;
    proof {
        added = added.push((seq![Pattern::Word(WordClass::OrdinalNumeral)], Production::OrdinalNumeral));
        assert(b.rules() =~= start + added);
    }
    // the <ordinal>
    b.rule(vec![Pattern::Word(WordClass::The), Pattern::Value], Production::TheOrdinal)?;
    proof {
        added = added.push((seq![Pattern::Word(WordClass::The), Pattern::Value], Production::TheOrdinal));
        assert(b.rules() =~= start + added);
    }
    assert(added =~= number_rules());
    Ok(())
}

/// The rule of percentages.
pub open spec fn percentage_rules() -> Seq<(Seq<Pattern>, Production)> {
    seq![
        (seq![Pattern::Value, Pattern::Word(WordClass::Percent)], Production::Percentage),
    ]
}

/// Registers the rule of percentages.
pub fn rules_percentage(b: &mut RuleSetBuilder) -> (r: Result<(), BuildError>)
    ensures
        r is Ok,
        final(b).rules() == old(b).rules() + percentage_rules(),
        old(b).wf() ==> final(b).wf(),
{
    let ghost start = b.rules();
    let ghost mut added: Seq<(Seq<Pattern>, Production)> = Seq::empty();
    // <number> per cent
    b.rule(vec![Pattern::Value, Pattern::Word(WordClass::Percent)], Production::Percentage)?;
    proof {
        added = added.push((seq![Pattern::Value, Pattern::Word(WordClass::Percent)], Production::Percentage));
        assert(b.rules() =~= start + added);
    }
    assert(added =~= percentage_rules());
    Ok(())
}

/// The rules of amounts of money.
pub open spec fn finance_rules() -> Seq<(Seq<Pattern>, Production)> {
    seq![
        (seq![Pattern::Value, Pattern::Value], Production::ComposeMoney),
        (seq![Pattern::Value, Pattern::Word(WordClass::And), Pattern::Value], Production::ComposeMoney),
        (seq![Pattern::Value, Pattern::Value], Production::ComposeMoneyNumber),
        (seq![Pattern::Value, Pattern::Word(WordClass::And), Pattern::Value], Production::ComposeMoneyNumber),
        (seq![Pattern::Word(WordClass::MoneyUnit)], Production::MoneyUnit),
        (seq![Pattern::Value, Pattern::Value], Production::UnitThenAmount),
        (seq![Pattern::Value, Pattern::Value], Production::AmountThenUnit),
        (seq![Pattern::Word(WordClass::About), Pattern::Value], Production::Approximately),
        (seq![Pattern::Word(WordClass::Exactly), Pattern::Value], Production::Exactly),
    ]
}

/// Registers the rules of amounts of money.
pub fn rules_finance(b: &mut RuleSetBuilder) -> (r: Result<(), BuildError>)
    ensures
        r is Ok,
        final(b).rules() == old(b).rules() + finance_rules(),
        old(b).wf() ==> final(b).wf(),
{
    let ghost start = b.rules();
    let ghost mut added: Seq<(Seq<Pattern>, Production)> = Seq::empty();
    // intersect (X cents)
    b.rule(vec![Pattern::Value, Pattern::Value], Production::ComposeMoney)?;
    proof {
        added = added.push((seq![Pattern::Value, Pattern::Value], Production::ComposeMoney));
        assert(b.rules() =~= start + added);
    }
    // intersect (and X cents)
    b.rule(vec![Pattern::Value, Pattern::Word(WordClass::And), Pattern::Value], Production::ComposeMoney)?;
    proof {
        added = added.push((seq![Pattern::Value, Pattern::Word(WordClass::And), Pattern::Value], Production::ComposeMoney));
        assert(b.rules() =~= start + added);
    }
    // intersect
    b.rule(vec![Pattern::Value, Pattern::Value], Production::ComposeMoneyNumber)?;
    proof {
        added = added.push((seq![Pattern::Value, Pattern::Value], Production::ComposeMoneyNumber));
        assert(b.rules() =~= start + added);
    }
    // intersect (and number)
    b.rule(vec![Pattern::Value, Pattern::Word(WordClass::And), Pattern::Value], Production::ComposeMoneyNumber)?;
    proof {
        added = added.push((seq![Pattern::Value, Pattern::Word(WordClass::And), Pattern::Value], Production::ComposeMoneyNumber));
        assert(b.rules() =~= start + added);
    }
    // currency units and symbols
    b.rule(single(Pattern::Word(WordClass::MoneyUnit)), Production::MoneyUnit)?;
    proof {
        added = added.push((seq![Pattern::Word(WordClass::MoneyUnit)], Production::MoneyUnit));
        assert(b.rules() =~= start + added);
    }
    // <unit> <amount>
    b.rule(vec![Pattern::Value, Pattern::Value], Production::UnitThenAmount)?;
    proof {
        added = added.push((seq![Pattern::Value, Pattern::Value], Production::UnitThenAmount));
        assert(b.rules() =~= start + added);
    }
    // <amount> <unit>
    b.rule(vec![Pattern::Value, Pattern::Value], Production::AmountThenUnit)?;
    proof {
        added = added.push((seq![Pattern::Value, Pattern::Value], Production::AmountThenUnit));
        assert(b.rules() =~= start + added);
    }
    // about <amount-of-money>
    b.rule(vec![Pattern::Word(WordClass::About), Pattern::Value], Production::Approximately)?;
    proof {
        added = added.push((seq![Pattern::Word(WordClass::About), Pattern::Value], Production::Approximately));
        assert(b.rules() =~= start + added);
    }
    // exactly <amount-of-money>
    b.rule(vec![Pattern::Word(WordClass::Exactly), Pattern::Value], Production::Exactly)?;
    proof {
        added = added.push((seq![Pattern::Word(WordClass::Exactly), Pattern::Value], Production::Exactly));
        assert(b.rules() =~= start + added);
    }
    assert(added =~= finance_rules());
    Ok(())
}

/// The rules of celebrations.
pub open spec fn celebration_rules() -> Seq<(Seq<Pattern>, Production)> {
    seq![
        (seq![Pattern::Value, Pattern::Word(WordClass::Advent)], Production::AdventSunday),
        (seq![Pattern::Word(WordClass::Named(Celebration::Christmas))], Production::Celebration(Celebration::Christmas)),
        (seq![Pattern::Word(WordClass::Named(Celebration::ChristmasEve))], Production::Celebration(Celebration::ChristmasEve)),
        (seq![Pattern::Word(WordClass::Named(Celebration::NewYearsEve))], Production::Celebration(Celebration::NewYearsEve)),
        (seq![Pattern::Word(WordClass::Named(Celebration::NewYearsDay))], Production::Celebration(Celebration::NewYearsDay)),
        (seq![Pattern::Word(WordClass::Named(Celebration::ValentinesDay))], Production::Celebration(Celebration::ValentinesDay)),
        (seq![Pattern::Word(WordClass::Named(Celebration::PalmSunday))], Production::Celebration(Celebration::PalmSunday)),
        (seq![Pattern::Word(WordClass::Named(Celebration::HolyThursday))], Production::Celebration(Celebration::HolyThursday)),
        (seq![Pattern::Word(WordClass::Named(Celebration::HolyFriday))], Production::Celebration(Celebration::HolyFriday)),
        (seq![Pattern::Word(WordClass::Named(Celebration::HolySaturday))], Production::Celebration(Celebration::HolySaturday)),
        (seq![Pattern::Word(WordClass::Named(Celebration::Easter))], Production::Celebration(Celebration::Easter)),
        (seq![Pattern::Word(WordClass::Named(Celebration::EasterMonday))], Production::Celebration(Celebration::EasterMonday)),
        (seq![Pattern::Word(WordClass::Named(Celebration::Ascension))], Production::Celebration(Celebration::Ascension)),
        (seq![Pattern::Word(WordClass::Named(Celebration::Pentecost))], Production::Celebration(Celebration::Pentecost)),
        (seq![Pattern::Word(WordClass::Named(Celebration::FathersDay))], Production::Celebration(Celebration::FathersDay)),
        (seq![Pattern::Word(WordClass::Named(Celebration::MothersDay))], Production::Celebration(Celebration::MothersDay)),
        (seq![Pattern::Word(WordClass::Named(Celebration::Halloween))], Production::Celebration(Celebration::Halloween)),
        (seq![Pattern::Word(WordClass::Named(Celebration::StPatricksDay))], Production::Celebration(Celebration::StPatricksDay)),
        (seq![Pattern::Word(WordClass::Named(Celebration::StBridgetsDay))], Production::Celebration(Celebration::StBridgetsDay)),
        (seq![Pattern::Word(WordClass::Named(Celebration::Epiphany))], Production::Celebration(Celebration::Epiphany)),
    ]
}

/// Registers the rules of celebrations.
pub fn rules_celebration(b: &mut RuleSetBuilder) -> (r: Result<(), BuildError>)
    ensures
        r is Ok,
        final(b).rules() == old(b).rules() + celebration_rules(),
        old(b).wf() ==> final(b).wf(),
{
    let ghost start = b.rules();
    let ghost mut added: Seq<(Seq<Pattern>, Production)> = Seq::empty();
    // nth sunday of advent
    b.rule(vec![Pattern::Value, Pattern::Word(WordClass::Advent)], Production::AdventSunday)?;
    proof {
        added = added.push((seq![Pattern::Value, Pattern::Word(WordClass::Advent)], Production::AdventSunday));
        assert(b.rules() =~= start + added);
    }
    b.rule(single(Pattern::Word(WordClass::Named(Celebration::Christmas))), Production::Celebration(Celebration::Christmas))?;
    proof {
        added = added.push((seq![Pattern::Word(WordClass::Named(Celebration::Christmas))], Production::Celebration(Celebration::Christmas)));
        assert(b.rules() =~= start + added);
    }
    b.rule(single(Pattern::Word(WordClass::Named(Celebration::ChristmasEve))), Production::Celebration(Celebration::ChristmasEve))?;
    proof {
        added = added.push((seq![Pattern::Word(WordClass::Named(Celebration::ChristmasEve))], Production::Celebration(Celebration::ChristmasEve)));
        assert(b.rules() =~= start + added);
    }
    b.rule(single(Pattern::Word(WordClass::Named(Celebration::NewYearsEve))), Production::Celebration(Celebration::NewYearsEve))?;
    proof {
        added = added.push((seq![Pattern::Word(WordClass::Named(Celebration::NewYearsEve))], Production::Celebration(Celebration::NewYearsEve)));
        assert(b.rules() =~= start + added);
    }
    b.rule(single(Pattern::Word(WordClass::Named(Celebration::NewYearsDay))), Production::Celebration(Celebration::NewYearsDay))?;
    proof {
        added = added.push((seq![Pattern::Word(WordClass::Named(Celebration::NewYearsDay))], Production::Celebration(Celebration::NewYearsDay)));
        assert(b.rules() =~= start + added);
    }
    b.rule(single(Pattern::Word(WordClass::Named(Celebration::ValentinesDay))), Production::Celebration(Celebration::ValentinesDay))?;
    proof {
        added = added.push((seq![Pattern::Word(WordClass::Named(Celebration::ValentinesDay))], Production::Celebration(Celebration::ValentinesDay)));
        assert(b.rules() =~= start + added);
    }
    b.rule(single(Pattern::Word(WordClass::Named(Celebration::PalmSunday))), Production::Celebration(Celebration::PalmSunday))?;
    proof {
        added = added.push((seq![Pattern::Word(WordClass::Named(Celebration::PalmSunday))], Production::Celebration(Celebration::PalmSunday)));
        assert(b.rules() =~= start + added);
    }
    b.rule(single(Pattern::Word(WordClass::Named(Celebration::HolyThursday))), Production::Celebration(Celebration::HolyThursday))?;
    proof {
        added = added.push((seq![Pattern::Word(WordClass::Named(Celebration::HolyThursday))], Production::Celebration(Celebration::HolyThursday)));
        assert(b.rules() =~= start + added);
    }
    b.rule(single(Pattern::Word(WordClass::Named(Celebration::HolyFriday))), Production::Celebration(Celebration::HolyFriday))?;
    proof {
        added = added.push((seq![Pattern::Word(WordClass::Named(Celebration::HolyFriday))], Production::Celebration(Celebration::HolyFriday)));
        assert(b.rules() =~= start + added);
    }
    b.rule(single(Pattern::Word(WordClass::Named(Celebration::HolySaturday))), Production::Celebration(Celebration::HolySaturday))?;
    proof {
        added = added.push((seq![Pattern::Word(WordClass::Named(Celebration::HolySaturday))], Production::Celebration(Celebration::HolySaturday)));
        assert(b.rules() =~= start + added);
    }
    b.rule(single(Pattern::Word(WordClass::Named(Celebration::Easter))), Production::Celebration(Celebration::Easter))?;
    proof {
        added = added.push((seq![Pattern::Word(WordClass::Named(Celebration::Easter))], Production::Celebration(Celebration::Easter)));
        assert(b.rules() =~= start + added);
    }
    b.rule(single(Pattern::Word(WordClass::Named(Celebration::EasterMonday))), Production::Celebration(Celebration::EasterMonday))?;
    proof {
        added = added.push((seq![Pattern::Word(WordClass::Named(Celebration::EasterMonday))], Production::Celebration(Celebration::EasterMonday)));
        assert(b.rules() =~= start + added);
    }
    b.rule(single(Pattern::Word(WordClass::Named(Celebration::Ascension))), Production::Celebration(Celebration::Ascension))?;
    proof {
        added = added.push((seq![Pattern::Word(WordClass::Named(Celebration::Ascension))], Production::Celebration(Celebration::Ascension)));
        assert(b.rules() =~= start + added);
    }
    b.rule(single(Pattern::Word(WordClass::Named(Celebration::Pentecost))), Production::Celebration(Celebration::Pentecost))?;
    proof {
        added = added.push((seq![Pattern::Word(WordClass::Named(Celebration::Pentecost))], Production::Celebration(Celebration::Pentecost)));
        assert(b.rules() =~= start + added);
    }
    b.rule(single(Pattern::Word(WordClass::Named(Celebration::FathersDay))), Production::Celebration(Celebration::FathersDay))?;
    proof {
        added = added.push((seq![Pattern::Word(WordClass::Named(Celebration::FathersDay))], Production::Celebration(Celebration::FathersDay)));
        assert(b.rules() =~= start + added);
    }
    b.rule(single(Pattern::Word(WordClass::Named(Celebration::MothersDay))), Production::Celebration(Celebration::MothersDay))?;
    proof {
        added = added.push((seq![Pattern::Word(WordClass::Named(Celebration::MothersDay))], Production::Celebration(Celebration::MothersDay)));
        assert(b.rules() =~= start + added);
    }
    b.rule(single(Pattern::Word(WordClass::Named(Celebration::Halloween))), Production::Celebration(Celebration::Halloween))?;
    proof {
        added = added.push((seq![Pattern::Word(WordClass::Named(Celebration::Halloween))], Production::Celebration(Celebration::Halloween)));
        assert(b.rules() =~= start + added);
    }
    b.rule(single(Pattern::Word(WordClass::Named(Celebration::StPatricksDay))), Production::Celebration(Celebration::StPatricksDay))?;
    proof {
        added = added.push((seq![Pattern::Word(WordClass::Named(Celebration::StPatricksDay))], Production::Celebration(Celebration::StPatricksDay)));
        assert(b.rules() =~= start + added);
    }
    b.rule(single(Pattern::Word(WordClass::Named(Celebration::StBridgetsDay))), Production::Celebration(Celebration::StBridgetsDay))?;
    proof {
        added = added.push((seq![Pattern::Word(WordClass::Named(Celebration::StBridgetsDay))], Production::Celebration(Celebration::StBridgetsDay)));
        assert(b.rules() =~= start + added);
    }
    b.rule(single(Pattern::Word(WordClass::Named(Celebration::Epiphany))), Production::Celebration(Celebration::Epiphany))?;
    proof {
        added = added.push((seq![Pattern::Word(WordClass::Named(Celebration::Epiphany))], Production::Celebration(Celebration::Epiphany)));
        assert(b.rules() =~= start + added);
    }
    assert(added =~= celebration_rules());
    Ok(())
}

/// The whole Irish rule set: numbers, percentages, amounts of money and
/// celebrations, in that order.
pub open spec fn irish_rules() -> Seq<(Seq<Pattern>, Production)> {
    number_rules() + percentage_rules() + finance_rules() + celebration_rules()
}

/// Builds the Irish rule set.
pub fn build_rule_set() -> (r: Result<RuleSet, BuildError>)
    ensures
        r matches Ok(s) && s.rules() == irish_rules() && s.wf(),
{
    let mut b = RuleSetBuilder::new();
    rules_numbers(&mut b)?;
    rules_percentage(&mut b)?;
    rules_finance(&mut b)?;
    rules_celebration(&mut b)?;
    proof {
        assert(b.rules() =~= irish_rules());
    }
    Ok(b.build())
}

} // verus!

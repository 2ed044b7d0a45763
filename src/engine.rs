//! The rule engine: rules over word classes and earlier values, registered
//! into a rule set, applied bottom-up over the tokens of an input until no rule
//! yields anything new.
use vstd::prelude::*;
use crate::celebrations::{
    advent_sunday, advent_sunday_value, celebration, celebration_predicate, Celebration,
};
use crate::calendar::{Form, TimeValue};
use crate::dimension::{
    AmountOfMoneyValue, Dimension, FloatValue, IntegerValue, MoneyUnitValue, NumberValue,
    OrdinalValue, PercentageValue, Precision, RuleError, MAX_SCALE,
};
use crate::lexicon::{money_unit_lookup, money_unit_of, multiplied_ordinal_scale_of, scale_of, suffix_of};
use crate::money::{
    compose_money, compose_money_number, money_composed, money_number_composed,
};
use crate::number::{
    and_a_half, and_a_quarter, apply_suffix_chars, compose_dotted, compose_large_ordinal,
    compose_numbers, compose_ordinal_tens, compose_small_ordinal, compose_tens, composed, dotted,
    grain_or_zero, group_multiplied, integer_word_chars, integer_word_value, large_ordinal,
    mark_positive, marked_positive, multiply_by_scale_chars, multiply_group,
    multiply_ordinal_by_scale_chars, negate, negated, ordinal_scaled_by_word,
    ordinal_tens_composed, ordinal_word_chars, ordinal_word_value, plus_fraction, scaled_by_word,
    small_ordinal, suffixed_by, tens_composed,
};
use crate::numerals::{
    decimal_numeral, decimal_numeral_exec, grouped_decimal_numeral, grouped_decimal_numeral_exec,
    grouped_numeral, grouped_numeral_exec,
    integer_numeral, integer_numeral_exec, ordinal_numeral, ordinal_numeral_exec,
};
use crate::resolve::Candidate;
use crate::text::{chars_eq_str, fold, folded};

verus! {

/// A lexical pattern: a class of words or phrases, matched on accent-folded tokens.
#[derive(Copy, Clone, Debug, PartialEq, Eq, Structural)]
pub enum WordClass {
    /// "agus", "is", "'s".
    And,
    /// A hyphen.
    Dash,
    /// "ponc", the decimal point.
    Point,
    /// A run of "náid" after the point, with an optional "a" before it.
    Zero,
    /// "-" or "míneas".
    Minus,
    /// "+".
    Plus,
    /// "%", "faoin gcéad".
    Percent,
    /// "go leith".
    Half,
    /// "agus ceathrú".
    Quarter,
    /// "thart ar", "timpeall".
    About,
    /// "glan", "go díreach".
    Exactly,
    /// The article "an".
    The,
    /// "Domhnach den Aidbhint".
    Advent,
    /// The name of a celebration.
    Named(Celebration),
    /// A word of the integer lexicon.
    IntegerWord,
    /// A scale word ("céad", "míle").
    Scale,
    /// A magnitude suffix (k, m, g).
    Suffix,
    /// A word of the ordinal lexicon.
    OrdinalWord,
    /// An ordinal scale word after a multiplier ("chéadú").
    OrdinalScale,
    /// A currency word or symbol.
    MoneyUnit,
    /// An integer in digits.
    IntegerNumeral,
    /// An integer in digits with thousands separators.
    GroupedNumeral,
    /// A decimal in digits.
    DecimalNumeral,
    /// A decimal in digits with thousands separators.
    GroupedDecimalNumeral,
    /// An ordinal in digits ("3ú").
    OrdinalNumeral,
}

/// The number of tokens from token `i` on that form one of the phrases of
/// the fixed class `c`, or 0.
pub open spec fn phrase_len(c: WordClass, toks: Seq<Seq<char>>, i: int) -> int {
    match c {
        WordClass::And => {
            if i + 1 <= toks.len() && toks[i] == "agus"@ {
                1
            } else if i + 1 <= toks.len() && toks[i] == "is"@ {
                1
            } else if i + 1 <= toks.len() && toks[i] == "'s"@ {
                1
            } else if i + 1 <= toks.len() && toks[i] == "’s"@ {
                1
            } else {
                0
            }
        },
        WordClass::Dash => {
            if i + 1 <= toks.len() && toks[i] == "-"@ {
                1
            } else {
                0
            }
        },
        WordClass::Point => {
            if i + 1 <= toks.len() && toks[i] == "ponc"@ {
                1
            } else {
                0
            }
        },
        WordClass::Zero => zero_run_len(toks, i),
        WordClass::Minus => {
            if i + 1 <= toks.len() && toks[i] == "-"@ {
                1
            } else if i + 1 <= toks.len() && toks[i] == "mineas"@ {
                1
            } else {
                0
            }
        },
        WordClass::Plus => {
            if i + 1 <= toks.len() && toks[i] == "+"@ {
                1
            } else {
                0
            }
        },
        WordClass::Percent => {
            if i + 1 <= toks.len() && toks[i] == "%"@ {
                1
            } else if i + 2 <= toks.len() && toks[i] == "faoin"@ && toks[i + 1] == "gcead"@ {
                2
            } else if i + 2 <= toks.len() && toks[i] == "faoi"@ && toks[i + 1] == "gcead"@ {
                2
            } else if i + 2 <= toks.len() && toks[i] == "faoin"@ && toks[i + 1] == "chead"@ {
                2
            } else if i + 2 <= toks.len() && toks[i] == "sa"@ && toks[i + 1] == "gcead"@ {
                2
            } else if i + 2 <= toks.len() && toks[i] == "sa"@ && toks[i + 1] == "chead"@ {
                2
            } else if i + 2 <= toks.len() && toks[i] == "sa"@ && toks[i + 1] == "cead"@ {
                2
            } else {
                0
            }
        },
        WordClass::Half => {
            if i + 2 <= toks.len() && toks[i] == "go"@ && toks[i + 1] == "leith"@ {
                2
            } else {
                0
            }
        },
        WordClass::Quarter => {
            if i + 2 <= toks.len() && toks[i] == "agus"@ && toks[i + 1] == "ceathru"@ {
                2
            } else {
                0
            }
        },
        WordClass::About => {
            if i + 2 <= toks.len() && toks[i] == "thart"@ && toks[i + 1] == "ar"@ {
                2
            } else if i + 1 <= toks.len() && toks[i] == "timpeall"@ {
                1
            } else if i + 2 <= toks.len() && toks[i] == "tuairim"@ && toks[i + 1] == "is"@ {
                2
            } else if i + 2 <= toks.len() && toks[i] == "go"@ && toks[i + 1] == "garbh"@ {
                2
            } else {
                0
            }
        },
        WordClass::Exactly => {
            if i + 2 <= toks.len() && toks[i] == "go"@ && toks[i + 1] == "direach"@ {
                2
            } else if i + 2 <= toks.len() && toks[i] == "direach"@ && toks[i + 1] == "glan"@ {
                2
            } else if i + 1 <= toks.len() && toks[i] == "glan"@ {
                1
            } else if i + 1 <= toks.len() && toks[i] == "direach"@ {
                1
            } else {
                0
            }
        },
        WordClass::The => {
            if i + 1 <= toks.len() && toks[i] == "an"@ {
                1
            } else {
                0
            }
        },
        WordClass::Advent => {
            if i + 3 <= toks.len() && toks[i] == "domhnach"@ && toks[i + 1] == "den"@ && toks[i + 2] == "aidbhint"@ {
                3
            } else if i + 3 <= toks.len() && toks[i] == "domhnach"@ && toks[i + 1] == "de"@ && toks[i + 2] == "aidbhint"@ {
                3
            } else if i + 3 <= toks.len() && toks[i] == "dhomhnach"@ && toks[i + 1] == "den"@ && toks[i + 2] == "aidbhint"@ {
                3
            } else if i + 3 <= toks.len() && toks[i] == "dhomhnach"@ && toks[i + 1] == "de"@ && toks[i + 2] == "aidbhint"@ {
                3
            } else if i + 3 <= toks.len() && toks[i] == "ndomhnach"@ && toks[i + 1] == "den"@ && toks[i + 2] == "aidbhint"@ {
                3
            } else if i + 3 <= toks.len() && toks[i] == "ndomhnach"@ && toks[i + 1] == "de"@ && toks[i + 2] == "aidbhint"@ {
                3
            } else if i + 3 <= toks.len() && toks[i] == "ndhomhnach"@ && toks[i + 1] == "den"@ && toks[i + 2] == "aidbhint"@ {
                3
            } else if i + 3 <= toks.len() && toks[i] == "ndhomhnach"@ && toks[i + 1] == "de"@ && toks[i + 2] == "aidbhint"@ {
                3
            } else {
                0
            }
        },
        WordClass::Named(cel) => celebration_phrase_len(cel, toks, i),
        _ => 0,
    }
}

/// The number of tokens from token `i` on that name the celebration, or 0.
pub open spec fn celebration_phrase_len(c: Celebration, toks: Seq<Seq<char>>, i: int) -> int {
    match c {
        Celebration::Christmas => {
            if i + 2 <= toks.len() && toks[i] == "la"@ && toks[i + 1] == "nollag"@ {
                2
            } else if i + 2 <= toks.len() && toks[i] == "la"@ && toks[i + 1] == "nollaig"@ {
                2
            } else if i + 1 <= toks.len() && toks[i] == "nollaig"@ {
                1
            } else {
                0
            }
        },
        Celebration::ChristmasEve => {
            if i + 2 <= toks.len() && toks[i] == "oiche"@ && toks[i + 1] == "nollag"@ {
                2
            } else if i + 2 <= toks.len() && toks[i] == "hoiche"@ && toks[i + 1] == "nollag"@ {
                2
            } else {
                0
            }
        },
        Celebration::NewYearsEve => {
            if i + 3 <= toks.len() && toks[i] == "oiche"@ && toks[i + 1] == "chinn"@ && toks[i + 2] == "bhliana"@ {
                3
            } else if i + 3 <= toks.len() && toks[i] == "oiche"@ && toks[i + 1] == "na"@ && toks[i + 2] == "seanbhliana"@ {
                3
            } else if i + 4 <= toks.len() && toks[i] == "oiche"@ && toks[i + 1] == "na"@ && toks[i + 2] == "coda"@ && toks[i + 3] == "moire"@ {
                4
            } else {
                0
            }
        },
        Celebration::NewYearsDay => {
            if i + 2 <= toks.len() && toks[i] == "la"@ && toks[i + 1] == "caille"@ {
                2
            } else if i + 4 <= toks.len() && toks[i] == "la"@ && toks[i + 1] == "na"@ && toks[i + 2] == "bliana"@ && toks[i + 3] == "nua"@ {
                4
            } else if i + 4 <= toks.len() && toks[i] == "la"@ && toks[i + 1] == "na"@ && toks[i + 2] == "bliana"@ && toks[i + 3] == "uire"@ {
                4
            } else {
                0
            }
        },
        Celebration::ValentinesDay => {
            if i + 3 <= toks.len() && toks[i] == "la"@ && toks[i + 1] == "fheile"@ && toks[i + 2] == "vailintin"@ {
                3
            } else if i + 3 <= toks.len() && toks[i] == "la"@ && toks[i + 1] == "san"@ && toks[i + 2] == "vailintin"@ {
                3
            } else if i + 2 <= toks.len() && toks[i] == "la"@ && toks[i + 1] == "vailintin"@ {
                2
            } else {
                0
            }
        },
        Celebration::PalmSunday => {
            if i + 3 <= toks.len() && toks[i] == "domhnach"@ && toks[i + 1] == "na"@ && toks[i + 2] == "pailme"@ {
                3
            } else if i + 3 <= toks.len() && toks[i] == "domhnach"@ && toks[i + 1] == "na"@ && toks[i + 2] == "slat"@ {
                3
            } else {
                0
            }
        },
        Celebration::HolyThursday => {
            if i + 2 <= toks.len() && toks[i] == "deardaoin"@ && toks[i + 1] == "mandala"@ {
                2
            } else if i + 2 <= toks.len() && toks[i] == "deardaoin"@ && toks[i + 1] == "naofa"@ {
                2
            } else if i + 2 <= toks.len() && toks[i] == "deardaoin"@ && toks[i + 1] == "beannaithe"@ {
                2
            } else {
                0
            }
        },
        Celebration::HolyFriday => {
            if i + 3 <= toks.len() && toks[i] == "aoine"@ && toks[i + 1] == "an"@ && toks[i + 2] == "cheasta"@ {
                3
            } else if i + 2 <= toks.len() && toks[i] == "aoine"@ && toks[i + 1] == "cheasta"@ {
                2
            } else if i + 3 <= toks.len() && toks[i] == "haoine"@ && toks[i + 1] == "an"@ && toks[i + 2] == "cheasta"@ {
                3
            } else {
                0
            }
        },
        Celebration::HolySaturday => {
            if i + 2 <= toks.len() && toks[i] == "satharn"@ && toks[i + 1] == "naofa"@ {
                2
            } else if i + 2 <= toks.len() && toks[i] == "tsatharn"@ && toks[i + 1] == "naofa"@ {
                2
            } else {
                0
            }
        },
        Celebration::Easter => {
            if i + 2 <= toks.len() && toks[i] == "domhnach"@ && toks[i + 1] == "casca"@ {
                2
            } else if i + 2 <= toks.len() && toks[i] == "dhomhnach"@ && toks[i + 1] == "casca"@ {
                2
            } else {
                0
            }
        },
        Celebration::EasterMonday => {
            if i + 2 <= toks.len() && toks[i] == "luan"@ && toks[i + 1] == "casca"@ {
                2
            } else {
                0
            }
        },
        Celebration::Ascension => {
            if i + 2 <= toks.len() && toks[i] == "deardaoin"@ && toks[i + 1] == "deascabhala"@ {
                2
            } else {
                0
            }
        },
        Celebration::Pentecost => {
            if i + 2 <= toks.len() && toks[i] == "an"@ && toks[i + 1] == "chincis"@ {
                2
            } else if i + 1 <= toks.len() && toks[i] == "cincis"@ {
                1
            } else if i + 1 <= toks.len() && toks[i] == "chincis"@ {
                1
            } else {
                0
            }
        },
        Celebration::FathersDay => {
            if i + 3 <= toks.len() && toks[i] == "la"@ && toks[i + 1] == "na"@ && toks[i + 2] == "naithreacha"@ {
                3
            } else if i + 3 <= toks.len() && toks[i] == "la"@ && toks[i + 1] == "na"@ && toks[i + 2] == "n-aithreacha"@ {
                3
            } else {
                0
            }
        },
        Celebration::MothersDay => {
            if i + 3 <= toks.len() && toks[i] == "la"@ && toks[i + 1] == "na"@ && toks[i + 2] == "maithreacha"@ {
                3
            } else {
                0
            }
        },
        Celebration::Halloween => {
            if i + 2 <= toks.len() && toks[i] == "oiche"@ && toks[i + 1] == "shamhna"@ {
                2
            } else if i + 2 <= toks.len() && toks[i] == "hoiche"@ && toks[i + 1] == "shamhna"@ {
                2
            } else {
                0
            }
        },
        Celebration::StPatricksDay => {
            if i + 3 <= toks.len() && toks[i] == "la"@ && toks[i + 1] == "fheile"@ && toks[i + 2] == "padraig"@ {
                3
            } else if i + 2 <= toks.len() && toks[i] == "la"@ && toks[i + 1] == "phadraig"@ {
                2
            } else if i + 2 <= toks.len() && toks[i] == "la"@ && toks[i + 1] == "padraig"@ {
                2
            } else {
                0
            }
        },
        Celebration::StBridgetsDay => {
            if i + 3 <= toks.len() && toks[i] == "la"@ && toks[i + 1] == "fheile"@ && toks[i + 2] == "bride"@ {
                3
            } else if i + 3 <= toks.len() && toks[i] == "la"@ && toks[i + 1] == "fheile"@ && toks[i + 2] == "bhride"@ {
                3
            } else if i + 2 <= toks.len() && toks[i] == "la"@ && toks[i + 1] == "bhride"@ {
                2
            } else {
                0
            }
        },
        Celebration::Epiphany => {
            if i + 2 <= toks.len() && toks[i] == "nollaig"@ && toks[i + 1] == "bheag"@ {
                2
            } else if i + 3 <= toks.len() && toks[i] == "nollaig"@ && toks[i + 1] == "na"@ && toks[i + 2] == "mban"@ {
                3
            } else if i + 3 <= toks.len() && toks[i] == "la"@ && toks[i + 1] == "nollag"@ && toks[i + 2] == "beag"@ {
                3
            } else {
                0
            }
        },
    }
}

fn phrase_len_exec(c: WordClass, toks: &Vec<Vec<char>>, i: usize) -> (r: usize)
    ensures
        r == phrase_len(c, words(toks@), i as int),
        r > 0 ==> i + r <= toks@.len(),
{
    match c {
        WordClass::And => {
            if i <= toks.len() && 1 <= toks.len() - i && chars_eq_str(&toks[i], "agus") {
                1
            } else if i <= toks.len() && 1 <= toks.len() - i && chars_eq_str(&toks[i], "is") {
                1
            } else if i <= toks.len() && 1 <= toks.len() - i && chars_eq_str(&toks[i], "'s") {
                1
            } else if i <= toks.len() && 1 <= toks.len() - i && chars_eq_str(&toks[i], "’s") {
                1
            } else {
                0
            }
        },
        WordClass::Dash => {
            if i <= toks.len() && 1 <= toks.len() - i && chars_eq_str(&toks[i], "-") {
                1
            } else {
                0
            }
        },
        WordClass::Point => {
            if i <= toks.len() && 1 <= toks.len() - i && chars_eq_str(&toks[i], "ponc") {
                1
            } else {
                0
            }
        },
        WordClass::Zero => zero_run_len_exec(toks, i),
        WordClass::Minus => {
            if i <= toks.len() && 1 <= toks.len() - i && chars_eq_str(&toks[i], "-") {
                1
            } else if i <= toks.len() && 1 <= toks.len() - i && chars_eq_str(&toks[i], "mineas") {
                1
            } else {
                0
            }
        },
        WordClass::Plus => {
            if i <= toks.len() && 1 <= toks.len() - i && chars_eq_str(&toks[i], "+") {
                1
            } else {
                0
            }
        },
        WordClass::Percent => {
            if i <= toks.len() && 1 <= toks.len() - i && chars_eq_str(&toks[i], "%") {
                1
            } else if i <= toks.len() && 2 <= toks.len() - i && chars_eq_str(&toks[i], "faoin") && chars_eq_str(&toks[i + 1], "gcead") {
                2
            } else if i <= toks.len() && 2 <= toks.len() - i && chars_eq_str(&toks[i], "faoi") && chars_eq_str(&toks[i + 1], "gcead") {
                2
            } else if i <= toks.len() && 2 <= toks.len() - i && chars_eq_str(&toks[i], "faoin") && chars_eq_str(&toks[i + 1], "chead") {
                2
            } else if i <= toks.len() && 2 <= toks.len() - i && chars_eq_str(&toks[i], "sa") && chars_eq_str(&toks[i + 1], "gcead") {
                2
            } else if i <= toks.len() && 2 <= toks.len() - i && chars_eq_str(&toks[i], "sa") && chars_eq_str(&toks[i + 1], "chead") {
                2
            } else if i <= toks.len() && 2 <= toks.len() - i && chars_eq_str(&toks[i], "sa") && chars_eq_str(&toks[i + 1], "cead") {
                2
            } else {
                0
            }
        },
        WordClass::Half => {
            if i <= toks.len() && 2 <= toks.len() - i && chars_eq_str(&toks[i], "go") && chars_eq_str(&toks[i + 1], "leith") {
                2
            } else {
                0
            }
        },
        WordClass::Quarter => {
            if i <= toks.len() && 2 <= toks.len() - i && chars_eq_str(&toks[i], "agus") && chars_eq_str(&toks[i + 1], "ceathru") {
                2
            } else {
                0
            }
        },
        WordClass::About => {
            if i <= toks.len() && 2 <= toks.len() - i && chars_eq_str(&toks[i], "thart") && chars_eq_str(&toks[i + 1], "ar") {
                2
            } else if i <= toks.len() && 1 <= toks.len() - i && chars_eq_str(&toks[i], "timpeall") {
                1
            } else if i <= toks.len() && 2 <= toks.len() - i && chars_eq_str(&toks[i], "tuairim") && chars_eq_str(&toks[i + 1], "is") {
                2
            } else if i <= toks.len() && 2 <= toks.len() - i && chars_eq_str(&toks[i], "go") && chars_eq_str(&toks[i + 1], "garbh") {
                2
            } else {
                0
            }
        },
        WordClass::Exactly => {
            if i <= toks.len() && 2 <= toks.len() - i && chars_eq_str(&toks[i], "go") && chars_eq_str(&toks[i + 1], "direach") {
                2
            } else if i <= toks.len() && 2 <= toks.len() - i && chars_eq_str(&toks[i], "direach") && chars_eq_str(&toks[i + 1], "glan") {
                2
            } else if i <= toks.len() && 1 <= toks.len() - i && chars_eq_str(&toks[i], "glan") {
                1
            } else if i <= toks.len() && 1 <= toks.len() - i && chars_eq_str(&toks[i], "direach") {
                1
            } else {
                0
            }
        },
        WordClass::The => {
            if i <= toks.len() && 1 <= toks.len() - i && chars_eq_str(&toks[i], "an") {
                1
            } else {
                0
            }
        },
        WordClass::Advent => {
            if i <= toks.len() && 3 <= toks.len() - i && chars_eq_str(&toks[i], "domhnach") && chars_eq_str(&toks[i + 1], "den") && chars_eq_str(&toks[i + 2], "aidbhint") {
                3
            } else if i <= toks.len() && 3 <= toks.len() - i && chars_eq_str(&toks[i], "domhnach") && chars_eq_str(&toks[i + 1], "de") && chars_eq_str(&toks[i + 2], "aidbhint") {
                3
            } else if i <= toks.len() && 3 <= toks.len() - i && chars_eq_str(&toks[i], "dhomhnach") && chars_eq_str(&toks[i + 1], "den") && chars_eq_str(&toks[i + 2], "aidbhint") {
                3
            } else if i <= toks.len() && 3 <= toks.len() - i && chars_eq_str(&toks[i], "dhomhnach") && chars_eq_str(&toks[i + 1], "de") && chars_eq_str(&toks[i + 2], "aidbhint") {
                3
            } else if i <= toks.len() && 3 <= toks.len() - i && chars_eq_str(&toks[i], "ndomhnach") && chars_eq_str(&toks[i + 1], "den") && chars_eq_str(&toks[i + 2], "aidbhint") {
                3
            } else if i <= toks.len() && 3 <= toks.len() - i && chars_eq_str(&toks[i], "ndomhnach") && chars_eq_str(&toks[i + 1], "de") && chars_eq_str(&toks[i + 2], "aidbhint") {
                3
            } else if i <= toks.len() && 3 <= toks.len() - i && chars_eq_str(&toks[i], "ndhomhnach") && chars_eq_str(&toks[i + 1], "den") && chars_eq_str(&toks[i + 2], "aidbhint") {
                3
            } else if i <= toks.len() && 3 <= toks.len() - i && chars_eq_str(&toks[i], "ndhomhnach") && chars_eq_str(&toks[i + 1], "de") && chars_eq_str(&toks[i + 2], "aidbhint") {
                3
            } else {
                0
            }
        },
        WordClass::Named(cel) => celebration_phrase_len_exec(cel, toks, i),
        _ => 0,
    }
}

fn celebration_phrase_len_exec(c: Celebration, toks: &Vec<Vec<char>>, i: usize) -> (r: usize)
    ensures
        r == celebration_phrase_len(c, words(toks@), i as int),
{
    match c {
        Celebration::Christmas => {
            if i <= toks.len() && 2 <= toks.len() - i && chars_eq_str(&toks[i], "la") && chars_eq_str(&toks[i + 1], "nollag") {
                2
            } else if i <= toks.len() && 2 <= toks.len() - i && chars_eq_str(&toks[i], "la") && chars_eq_str(&toks[i + 1], "nollaig") {
                2
            } else if i <= toks.len() && 1 <= toks.len() - i && chars_eq_str(&toks[i], "nollaig") {
                1
            } else {
                0
            }
        },
        Celebration::ChristmasEve => {
            if i <= toks.len() && 2 <= toks.len() - i && chars_eq_str(&toks[i], "oiche") && chars_eq_str(&toks[i + 1], "nollag") {
                2
            } else if i <= toks.len() && 2 <= toks.len() - i && chars_eq_str(&toks[i], "hoiche") && chars_eq_str(&toks[i + 1], "nollag") {
                2
            } else {
                0
            }
        },
        Celebration::NewYearsEve => {
            if i <= toks.len() && 3 <= toks.len() - i && chars_eq_str(&toks[i], "oiche") && chars_eq_str(&toks[i + 1], "chinn") && chars_eq_str(&toks[i + 2], "bhliana") {
                3
            } else if i <= toks.len() && 3 <= toks.len() - i && chars_eq_str(&toks[i], "oiche") && chars_eq_str(&toks[i + 1], "na") && chars_eq_str(&toks[i + 2], "seanbhliana") {
                3
            } else if i <= toks.len() && 4 <= toks.len() - i && chars_eq_str(&toks[i], "oiche") && chars_eq_str(&toks[i + 1], "na") && chars_eq_str(&toks[i + 2], "coda") && chars_eq_str(&toks[i + 3], "moire") {
                4
            } else {
                0
            }
        },
        Celebration::NewYearsDay => {
            if i <= toks.len() && 2 <= toks.len() - i && chars_eq_str(&toks[i], "la") && chars_eq_str(&toks[i + 1], "caille") {
                2
            } else if i <= toks.len() && 4 <= toks.len() - i && chars_eq_str(&toks[i], "la") && chars_eq_str(&toks[i + 1], "na") && chars_eq_str(&toks[i + 2], "bliana") && chars_eq_str(&toks[i + 3], "nua") {
                4
            } else if i <= toks.len() && 4 <= toks.len() - i && chars_eq_str(&toks[i], "la") && chars_eq_str(&toks[i + 1], "na") && chars_eq_str(&toks[i + 2], "bliana") && chars_eq_str(&toks[i + 3], "uire") {
                4
            } else {
                0
            }
        },
        Celebration::ValentinesDay => {
            if i <= toks.len() && 3 <= toks.len() - i && chars_eq_str(&toks[i], "la") && chars_eq_str(&toks[i + 1], "fheile") && chars_eq_str(&toks[i + 2], "vailintin") {
                3
            } else if i <= toks.len() && 3 <= toks.len() - i && chars_eq_str(&toks[i], "la") && chars_eq_str(&toks[i + 1], "san") && chars_eq_str(&toks[i + 2], "vailintin") {
                3
            } else if i <= toks.len() && 2 <= toks.len() - i && chars_eq_str(&toks[i], "la") && chars_eq_str(&toks[i + 1], "vailintin") {
                2
            } else {
                0
            }
        },
        Celebration::PalmSunday => {
            if i <= toks.len() && 3 <= toks.len() - i && chars_eq_str(&toks[i], "domhnach") && chars_eq_str(&toks[i + 1], "na") && chars_eq_str(&toks[i + 2], "pailme") {
                3
            } else if i <= toks.len() && 3 <= toks.len() - i && chars_eq_str(&toks[i], "domhnach") && chars_eq_str(&toks[i + 1], "na") && chars_eq_str(&toks[i + 2], "slat") {
                3
            } else {
                0
            }
        },
        Celebration::HolyThursday => {
            if i <= toks.len() && 2 <= toks.len() - i && chars_eq_str(&toks[i], "deardaoin") && chars_eq_str(&toks[i + 1], "mandala") {
                2
            } else if i <= toks.len() && 2 <= toks.len() - i && chars_eq_str(&toks[i], "deardaoin") && chars_eq_str(&toks[i + 1], "naofa") {
                2
            } else if i <= toks.len() && 2 <= toks.len() - i && chars_eq_str(&toks[i], "deardaoin") && chars_eq_str(&toks[i + 1], "beannaithe") {
                2
            } else {
                0
            }
        },
        Celebration::HolyFriday => {
            if i <= toks.len() && 3 <= toks.len() - i && chars_eq_str(&toks[i], "aoine") && chars_eq_str(&toks[i + 1], "an") && chars_eq_str(&toks[i + 2], "cheasta") {
                3
            } else if i <= toks.len() && 2 <= toks.len() - i && chars_eq_str(&toks[i], "aoine") && chars_eq_str(&toks[i + 1], "cheasta") {
                2
            } else if i <= toks.len() && 3 <= toks.len() - i && chars_eq_str(&toks[i], "haoine") && chars_eq_str(&toks[i + 1], "an") && chars_eq_str(&toks[i + 2], "cheasta") {
                3
            } else {
                0
            }
        },
        Celebration::HolySaturday => {
            if i <= toks.len() && 2 <= toks.len() - i && chars_eq_str(&toks[i], "satharn") && chars_eq_str(&toks[i + 1], "naofa") {
                2
            } else if i <= toks.len() && 2 <= toks.len() - i && chars_eq_str(&toks[i], "tsatharn") && chars_eq_str(&toks[i + 1], "naofa") {
                2
            } else {
                0
            }
        },
        Celebration::Easter => {
            if i <= toks.len() && 2 <= toks.len() - i && chars_eq_str(&toks[i], "domhnach") && chars_eq_str(&toks[i + 1], "casca") {
                2
            } else if i <= toks.len() && 2 <= toks.len() - i && chars_eq_str(&toks[i], "dhomhnach") && chars_eq_str(&toks[i + 1], "casca") {
                2
            } else {
                0
            }
        },
        Celebration::EasterMonday => {
            if i <= toks.len() && 2 <= toks.len() - i && chars_eq_str(&toks[i], "luan") && chars_eq_str(&toks[i + 1], "casca") {
                2
            } else {
                0
            }
        },
        Celebration::Ascension => {
            if i <= toks.len() && 2 <= toks.len() - i && chars_eq_str(&toks[i], "deardaoin") && chars_eq_str(&toks[i + 1], "deascabhala") {
                2
            } else {
                0
            }
        },
        Celebration::Pentecost => {
            if i <= toks.len() && 2 <= toks.len() - i && chars_eq_str(&toks[i], "an") && chars_eq_str(&toks[i + 1], "chincis") {
                2
            } else if i <= toks.len() && 1 <= toks.len() - i && chars_eq_str(&toks[i], "cincis") {
                1
            } else if i <= toks.len() && 1 <= toks.len() - i && chars_eq_str(&toks[i], "chincis") {
                1
            } else {
                0
            }
        },
        Celebration::FathersDay => {
            if i <= toks.len() && 3 <= toks.len() - i && chars_eq_str(&toks[i], "la") && chars_eq_str(&toks[i + 1], "na") && chars_eq_str(&toks[i + 2], "naithreacha") {
                3
            } else if i <= toks.len() && 3 <= toks.len() - i && chars_eq_str(&toks[i], "la") && chars_eq_str(&toks[i + 1], "na") && chars_eq_str(&toks[i + 2], "n-aithreacha") {
                3
            } else {
                0
            }
        },
        Celebration::MothersDay => {
            if i <= toks.len() && 3 <= toks.len() - i && chars_eq_str(&toks[i], "la") && chars_eq_str(&toks[i + 1], "na") && chars_eq_str(&toks[i + 2], "maithreacha") {
                3
            } else {
                0
            }
        },
        Celebration::Halloween => {
            if i <= toks.len() && 2 <= toks.len() - i && chars_eq_str(&toks[i], "oiche") && chars_eq_str(&toks[i + 1], "shamhna") {
                2
            } else if i <= toks.len() && 2 <= toks.len() - i && chars_eq_str(&toks[i], "hoiche") && chars_eq_str(&toks[i + 1], "shamhna") {
                2
            } else {
                0
            }
        },
        Celebration::StPatricksDay => {
            if i <= toks.len() && 3 <= toks.len() - i && chars_eq_str(&toks[i], "la") && chars_eq_str(&toks[i + 1], "fheile") && chars_eq_str(&toks[i + 2], "padraig") {
                3
            } else if i <= toks.len() && 2 <= toks.len() - i && chars_eq_str(&toks[i], "la") && chars_eq_str(&toks[i + 1], "phadraig") {
                2
            } else if i <= toks.len() && 2 <= toks.len() - i && chars_eq_str(&toks[i], "la") && chars_eq_str(&toks[i + 1], "padraig") {
                2
            } else {
                0
            }
        },
        Celebration::StBridgetsDay => {
            if i <= toks.len() && 3 <= toks.len() - i && chars_eq_str(&toks[i], "la") && chars_eq_str(&toks[i + 1], "fheile") && chars_eq_str(&toks[i + 2], "bride") {
                3
            } else if i <= toks.len() && 3 <= toks.len() - i && chars_eq_str(&toks[i], "la") && chars_eq_str(&toks[i + 1], "fheile") && chars_eq_str(&toks[i + 2], "bhride") {
                3
            } else if i <= toks.len() && 2 <= toks.len() - i && chars_eq_str(&toks[i], "la") && chars_eq_str(&toks[i + 1], "bhride") {
                2
            } else {
                0
            }
        },
        Celebration::Epiphany => {
            if i <= toks.len() && 2 <= toks.len() - i && chars_eq_str(&toks[i], "nollaig") && chars_eq_str(&toks[i + 1], "bheag") {
                2
            } else if i <= toks.len() && 3 <= toks.len() - i && chars_eq_str(&toks[i], "nollaig") && chars_eq_str(&toks[i + 1], "na") && chars_eq_str(&toks[i + 2], "mban") {
                3
            } else if i <= toks.len() && 3 <= toks.len() - i && chars_eq_str(&toks[i], "la") && chars_eq_str(&toks[i + 1], "nollag") && chars_eq_str(&toks[i + 2], "beag") {
                3
            } else {
                0
            }
        },
    }
}

/// The number of consecutive "náid" tokens from token `i` on.
pub open spec fn naid_run(toks: Seq<Seq<char>>, i: int) -> int
    decreases toks.len() - i,
{
    if 0 <= i < toks.len() && toks[i] == "naid"@ {
        1 + naid_run(toks, i + 1)
    } else {
        0
    }
}

/// The length in tokens of a run of zero words ("náid náid"), with an
/// optional "a" before it, from token `i` on; 0 when there is none.
pub open spec fn zero_run_len(toks: Seq<Seq<char>>, i: int) -> int {
    if 0 <= i < toks.len() && toks[i] == "a"@ {
        if naid_run(toks, i + 1) > 0 {
            1 + naid_run(toks, i + 1)
        } else {
            0
        }
    } else {
        naid_run(toks, i)
    }
}

fn naid_run_exec(toks: &Vec<Vec<char>>, i: usize) -> (r: usize)
    ensures
        r == naid_run(words(toks@), i as int),
        r > 0 ==> i + r <= toks@.len(),
{
    let mut j: usize = i;
    while j < toks.len() && chars_eq_str(&toks[j], "naid")
        invariant
            i <= j,
            j <= i || j <= toks@.len(),
            naid_run(words(toks@), i as int) == (j - i) + naid_run(words(toks@), j as int),
        decreases toks@.len() - j,
    {
        j = j + 1;
    }
    j - i
}

fn zero_run_len_exec(toks: &Vec<Vec<char>>, i: usize) -> (r: usize)
    ensures
        r == zero_run_len(words(toks@), i as int),
        r > 0 ==> i + r <= toks@.len(),
{
    if i < toks.len() && chars_eq_str(&toks[i], "a") {
        let n = naid_run_exec(toks, i + 1);
        if n > 0 {
            1 + n
        } else {
            0
        }
    } else {
        naid_run_exec(toks, i)
    }
}

/// The views of a sequence of character vectors.
pub open spec fn words(toks: Seq<Vec<char>>) -> Seq<Seq<char>> {
    toks.map_values(|v: Vec<char>| v@)
}

/// The number of tokens that class `c` matches from token `i` on, or 0.
pub open spec fn word_len(c: WordClass, toks: Seq<Seq<char>>, i: int) -> int {
    if !(0 <= i < toks.len()) {
        0
    } else {
        match c {
            WordClass::IntegerWord => if integer_word_value(toks[i]) is Some { 1 } else { 0 },
            WordClass::Scale => if scale_of(toks[i]) is Some { 1 } else { 0 },
            WordClass::Suffix => if suffix_of(toks[i]) is Some { 1 } else { 0 },
            WordClass::OrdinalWord => if ordinal_word_value(toks[i]) is Some { 1 } else { 0 },
            WordClass::OrdinalScale => if multiplied_ordinal_scale_of(toks[i]) is Some { 1 } else { 0 },
            WordClass::MoneyUnit => if money_unit_of(toks[i]) is Some { 1 } else { 0 },
            WordClass::IntegerNumeral => if integer_numeral(toks[i]) is Some { 1 } else { 0 },
            WordClass::GroupedNumeral => if grouped_numeral(toks[i]) is Some { 1 } else { 0 },
            WordClass::DecimalNumeral => if decimal_numeral(toks[i]) is Some { 1 } else { 0 },
            WordClass::GroupedDecimalNumeral => if grouped_decimal_numeral(toks[i]) is Some {
                1
            } else {
                0
            },
            WordClass::OrdinalNumeral => if ordinal_numeral(toks[i]) is Some { 1 } else { 0 },
            _ => phrase_len(c, toks, i),
        }
    }
}

/// The number of tokens that class `c` matches from token `i` on, or 0.
pub fn match_word(c: WordClass, toks: &Vec<Vec<char>>, i: usize) -> (r: usize)
    ensures
        r == word_len(c, words(toks@), i as int),
        r <= toks@.len(),
        r > 0 ==> i + r <= toks@.len(),
{
    if i >= toks.len() {
        return 0;
    }
    let r = match c {
        WordClass::IntegerWord => if crate::number::integer_word_chars(&toks[i]).is_some() { 1 } else { 0 },
        WordClass::Scale => if crate::lexicon::scale_lookup(&toks[i]).is_some() { 1 } else { 0 },
        WordClass::Suffix => if crate::lexicon::suffix_lookup(&toks[i]).is_some() { 1 } else { 0 },
        WordClass::OrdinalWord => if crate::number::ordinal_word_chars(&toks[i]).is_some() { 1 } else { 0 },
        WordClass::OrdinalScale => if crate::lexicon::multiplied_ordinal_scale_lookup(&toks[i]).is_some() {
            1
        } else {
            0
        },
        WordClass::MoneyUnit => if crate::lexicon::money_unit_lookup(&toks[i]).is_some() { 1 } else { 0 },
        WordClass::IntegerNumeral => if integer_numeral_exec(&toks[i]).is_some() { 1 } else { 0 },
        WordClass::GroupedNumeral => if grouped_numeral_exec(&toks[i]).is_some() { 1 } else { 0 },
        WordClass::DecimalNumeral => if decimal_numeral_exec(&toks[i]).is_some() { 1 } else { 0 },
        WordClass::GroupedDecimalNumeral => if grouped_decimal_numeral_exec(&toks[i]).is_some() {
            1
        } else {
            0
        },
        WordClass::OrdinalNumeral => if ordinal_numeral_exec(&toks[i]).is_some() { 1 } else { 0 },
        _ => phrase_len_exec(c, toks, i),
    };
    r
}

/// The tokens with their accents folded.
pub fn fold_tokens(tokens: &Vec<String>) -> (r: Vec<Vec<char>>)
    ensures
        r@.len() == tokens@.len(),
        forall|i: int| 0 <= i < tokens@.len() ==> #[trigger] words(r@)[i] == folded(tokens@[i]@),
{
    let mut r: Vec<Vec<char>> = Vec::new();
    let mut i: usize = 0;
    while i < tokens.len()
        invariant
            i <= tokens@.len(),
            r@.len() == i,
            forall|k: int| 0 <= k < i ==> #[trigger] r@[k]@ == folded(tokens@[k]@),
        decreases tokens@.len() - i,
    {
        r.push(fold(tokens[i].as_str()));
        i = i + 1;
    }
    assert forall|k: int| 0 <= k < tokens@.len() implies #[trigger] words(r@)[k] == folded(
        tokens@[k]@,
    ) by {
        assert(r@[k]@ == folded(tokens@[k]@));
    }
    r
}

/// One position of a rule: a word class, or a value produced earlier.
#[derive(Copy, Clone, Debug, PartialEq, Eq, Structural)]
pub enum Pattern {
    Word(WordClass),
    Value,
}

/// What a rule makes of what it matched.
#[derive(Copy, Clone, Debug, PartialEq, Eq, Structural)]
pub enum Production {
    /// Positional composition of the first value (grain above 1) and the last.
    ComposeNumbers,
    IntegerWord,
    ComposeTens,
    MultiplyByScale,
    MultiplyGroup,
    AndAHalf,
    AndAQuarter,
    /// A decimal from the first and last integers, with no zero words.
    Dotted,
    /// A decimal from the first and last integers, with as many zeros after
    /// the point as the third position holds zero words.
    DottedZeros,
    Negate,
    Positive,
    Suffix,
    OrdinalWord,
    OrdinalTens,
    OrdinalScale,
    LargeOrdinal,
    SmallOrdinal,
    TheOrdinal,
    Percentage,
    ComposeMoney,
    ComposeMoneyNumber,
    MoneyUnit,
    UnitThenAmount,
    AmountThenUnit,
    Approximately,
    Exactly,
    Celebration(Celebration),
    AdventSunday,
    IntegerNumeral,
    GroupedNumeral,
    DecimalNumeral,
    GroupedDecimalNumeral,
    OrdinalNumeral,
}

/// What one position of a match holds: the tokens a word class covered (first
/// token and count), or the index of an earlier candidate.
#[derive(Copy, Clone, Debug, PartialEq, Eq, Structural)]
pub enum Arg {
    Word(usize, usize),
    Value(usize),
}

/// A rule: its patterns, matched over adjacent spans, and its production.
#[derive(Clone, Debug, PartialEq)]
pub struct Rule {
    pub patterns: Vec<Pattern>,
    pub production: Production,
}

/// A rule as data: its patterns and its production.
pub open spec fn rule_view(r: Rule) -> (Seq<Pattern>, Production) {
    (r.patterns@, r.production)
}

/// A well-formed rule has one to four patterns, and a rule of one pattern is
/// lexical.
pub open spec fn rule_wf(pats: Seq<Pattern>) -> bool {
    1 <= pats.len() <= 4 && (pats.len() == 1 ==> pats[0] is Word)
}

/// Why a rule set could not be built.
#[derive(Copy, Clone, Debug, PartialEq, Eq, Structural)]
pub enum BuildError {
    /// A rule with no pattern or with more than four.
    Arity,
    /// A rule of one pattern that is not lexical.
    NonLexicalTerminal,
}

/// An immutable set of rules, in registration order.
pub struct RuleSet {
    rules: Vec<Rule>,
}

impl RuleSet {
    pub closed spec fn rules(self) -> Seq<(Seq<Pattern>, Production)> {
        self.rules@.map_values(|r: Rule| rule_view(r))
    }

    pub closed spec fn wf(self) -> bool {
        forall|i: int| 0 <= i < self.rules@.len() ==> rule_wf(#[trigger] self.rules@[i].patterns@)
    }

    pub fn len(&self) -> (r: usize)
        ensures
            r == self.rules().len(),
    {
        self.rules.len()
    }

    /// Every rule of a well-formed set is well formed.
    pub proof fn lemma_wf_rules(self)
        requires
            self.wf(),
        ensures
            forall|i: int| 0 <= i < self.rules().len() ==> rule_wf(#[trigger] self.rules()[i].0),
    {
        assert forall|i: int| 0 <= i < self.rules().len() implies rule_wf(#[trigger] self.rules()[i].0) by {
            assert(self.rules()[i] == rule_view(self.rules@[i]));
        }
    }

    /// The `r`-th rule.
    pub fn rule_at(&self, r: usize) -> (res: &Rule)
        requires
            r < self.rules().len(),
        ensures
            rule_view(*res) == self.rules()[r as int],
    {
        &self.rules[r]
    }
}

/// Collects rules for a rule set.
pub struct RuleSetBuilder {
    rules: Vec<Rule>,
}

impl RuleSetBuilder {
    pub closed spec fn rules(self) -> Seq<(Seq<Pattern>, Production)> {
        self.rules@.map_values(|r: Rule| rule_view(r))
    }

    pub closed spec fn wf(self) -> bool {
        forall|i: int| 0 <= i < self.rules@.len() ==> rule_wf(#[trigger] self.rules@[i].patterns@)
    }

    pub fn new() -> (r: RuleSetBuilder)
        ensures
            r.rules() == Seq::<(Seq<Pattern>, Production)>::empty(),
            r.wf(),
    {
        let r = RuleSetBuilder { rules: Vec::new() };
        assert(r.rules() =~= Seq::<(Seq<Pattern>, Production)>::empty());
        r
    }

    /// Registers a rule; fails, leaving the builder as it was, on a rule of no
    /// pattern or more than four, or a one-pattern rule that is not lexical.
    #[verifier::rlimit(40)]
    pub fn rule(&mut self, patterns: Vec<Pattern>, production: Production) -> (r: Result<(), BuildError>)
        ensures
            r is Ok <==> rule_wf(patterns@),
            r matches Err(e) ==> e == (if 1 <= patterns@.len() <= 4 {
                BuildError::NonLexicalTerminal
            } else {
                BuildError::Arity
            }),
            r is Ok ==> final(self).rules() == old(self).rules().push((patterns@, production)),
            r is Err ==> final(self).rules() == old(self).rules(),
            old(self).wf() ==> final(self).wf(),
    {
        if patterns.len() < 1 || patterns.len() > 4 {
            return Err(BuildError::Arity);
        }
        if patterns.len() == 1 {
            match patterns[0] {
                Pattern::Value => {
                    return Err(BuildError::NonLexicalTerminal);
                },
                Pattern::Word(_) => {},
            }
        }
        assert(rule_wf(patterns@));
        let ghost before = self.rules@;
        self.rules.push(Rule { patterns, production });
        assert(self.rules@.map_values(|r: Rule| rule_view(r)) =~= before.map_values(
            |r: Rule| rule_view(r),
        ).push((patterns@, production)));
        assert forall|i: int| 0 <= i < self.rules@.len() && old(self).wf() implies rule_wf(
            #[trigger] self.rules@[i].patterns@,
        ) by {
            if i < before.len() {
                assert(self.rules@[i] == before[i]);
            }
        }
        Ok(())
    }

    /// The rule set holding the registered rules in order.
    pub fn build(self) -> (r: RuleSet)
        ensures
            r.rules() == self.rules(),
            self.wf() ==> r.wf(),
    {
        RuleSet { rules: self.rules }
    }
}

/// The number a value holds, if it is an integer or a decimal.
pub open spec fn number_of(d: Dimension) -> Option<NumberValue> {
    match d {
        Dimension::Integer(i) => Some(NumberValue::Integer(i)),
        Dimension::Float(f) => Some(NumberValue::Float(f)),
        _ => None,
    }
}

pub open spec fn number_dim(n: NumberValue) -> Dimension {
    match n {
        NumberValue::Integer(i) => Dimension::Integer(i),
        NumberValue::Float(f) => Dimension::Float(f),
    }
}

pub open spec fn integer_of(d: Dimension) -> Option<IntegerValue> {
    match d {
        Dimension::Integer(i) => Some(i),
        _ => None,
    }
}

pub open spec fn ordinal_of_dim(d: Dimension) -> Option<OrdinalValue> {
    match d {
        Dimension::Ordinal(o) => Some(o),
        _ => None,
    }
}

pub open spec fn amount_of(d: Dimension) -> Option<AmountOfMoneyValue> {
    match d {
        Dimension::AmountOfMoney(a) => Some(a),
        _ => None,
    }
}

pub open spec fn unit_of(d: Dimension) -> Option<MoneyUnitValue> {
    match d {
        Dimension::MoneyUnit(u) => Some(u),
        _ => None,
    }
}

/// The value at position `k` of a match, if that position holds a value.
pub open spec fn val(vals: Seq<Option<Dimension>>, k: int) -> Option<Dimension> {
    if 0 <= k < vals.len() {
        vals[k]
    } else {
        None
    }
}

/// The first token of the word at position `k` of a match.
pub open spec fn word_at(toks: Seq<Seq<char>>, args: Seq<Arg>, k: int) -> Seq<char> {
    if 0 <= k < args.len() && args[k] is Word && args[k]->Word_0 < toks.len() {
        toks[args[k]->Word_0 as int]
    } else {
        Seq::empty()
    }
}

/// The number of zero words at position `k` of a match: its tokens, less a
/// leading "a".
pub open spec fn zero_count(toks: Seq<Seq<char>>, args: Seq<Arg>, k: int) -> int {
    if word_at(toks, args, k) == "a"@ && word_count(args, k) >= 1 {
        word_count(args, k) - 1
    } else {
        word_count(args, k)
    }
}

/// The number of tokens of the word at position `k` of a match.
pub open spec fn word_count(args: Seq<Arg>, k: int) -> int {
    if 0 <= k < args.len() && args[k] is Word {
        args[k]->Word_1 as int
    } else {
        0
    }
}

pub open spec fn ok_number(r: Result<NumberValue, RuleError>) -> Option<Dimension> {
    match r {
        Ok(n) => Some(number_dim(n)),
        Err(_) => None,
    }
}

pub open spec fn ok_integer(r: Result<IntegerValue, RuleError>) -> Option<Dimension> {
    match r {
        Ok(i) => Some(Dimension::Integer(i)),
        Err(_) => None,
    }
}

pub open spec fn ok_float(r: Result<FloatValue, RuleError>) -> Option<Dimension> {
    match r {
        Ok(f) => Some(Dimension::Float(f)),
        Err(_) => None,
    }
}

pub open spec fn ok_ordinal(r: Result<OrdinalValue, RuleError>) -> Option<Dimension> {
    match r {
        Ok(o) => Some(Dimension::Ordinal(o)),
        Err(_) => None,
    }
}

pub open spec fn ok_amount(r: Result<AmountOfMoneyValue, RuleError>) -> Option<Dimension> {
    match r {
        Ok(a) => Some(Dimension::AmountOfMoney(a)),
        Err(_) => None,
    }
}

/// What production `p` makes of a match: `args` are its positions, `vals`
/// the values they hold; `None` when the production rejects them.
pub open spec fn produce(
    p: Production,
    toks: Seq<Seq<char>>,
    args: Seq<Arg>,
    vals: Seq<Option<Dimension>>,
) -> Option<Dimension> {
    let first = val(vals, 0);
    let last = val(vals, vals.len() - 1);
    let first_num = if first is Some { number_of(first->0) } else { None };
    let last_num = if last is Some { number_of(last->0) } else { None };
    let first_int = if first is Some { integer_of(first->0) } else { None };
    let last_int = if last is Some { integer_of(last->0) } else { None };
    let last_ord = if last is Some { ordinal_of_dim(last->0) } else { None };
    let first_ord = if first is Some { ordinal_of_dim(first->0) } else { None };
    let first_amount = if first is Some { amount_of(first->0) } else { None };
    let last_amount = if last is Some { amount_of(last->0) } else { None };
    let first_unit = if first is Some { unit_of(first->0) } else { None };
    let last_unit = if last is Some { unit_of(last->0) } else { None };
    match p {
        Production::ComposeNumbers => if first_num is Some && last_num is Some && grain_or_zero(
            first_num->0,
        ) > 1 && last_num->0.wf() {
            ok_number(composed(first_num->0, last_num->0))
        } else {
            None
        },
        Production::IntegerWord => match integer_word_value(word_at(toks, args, 0)) {
            Some(i) => Some(Dimension::Integer(i)),
            None => None,
        },
        Production::ComposeTens => if first_int is Some && last_int is Some {
            ok_integer(tens_composed(first_int->0, last_int->0))
        } else {
            None
        },
        Production::MultiplyByScale => if first_int is Some {
            ok_integer(scaled_by_word(first_int->0, word_at(toks, args, 1)))
        } else {
            None
        },
        Production::MultiplyGroup => if first_int is Some && last_int is Some {
            ok_integer(group_multiplied(first_int->0, last_int->0))
        } else {
            None
        },
        Production::AndAHalf => if first_int is Some {
            ok_float(plus_fraction(first_int->0, 5, 1))
        } else {
            None
        },
        Production::AndAQuarter => if first_int is Some {
            ok_float(plus_fraction(first_int->0, 25, 2))
        } else {
            None
        },
        Production::Dotted => if first_int is Some && last_int is Some {
            ok_float(dotted(first_int->0, 0, last_int->0))
        } else {
            None
        },
        Production::DottedZeros => if first_int is Some && last_int is Some {
            ok_float(dotted(first_int->0, zero_count(toks, args, 2) as nat, last_int->0))
        } else {
            None
        },
        Production::Negate => if last_num is Some {
            ok_number(negated(last_num->0))
        } else {
            None
        },
        Production::Positive => if last_num is Some {
            ok_number(marked_positive(last_num->0))
        } else {
            None
        },
        Production::Suffix => if first_num is Some && first_num->0.wf() {
            ok_number(suffixed_by(first_num->0, word_at(toks, args, 1)))
        } else {
            None
        },
        Production::OrdinalWord => match ordinal_word_value(word_at(toks, args, 0)) {
            Some(o) => Some(Dimension::Ordinal(o)),
            None => None,
        },
        Production::OrdinalTens => if first_int is Some && last_ord is Some {
            ok_ordinal(ordinal_tens_composed(first_int->0, last_ord->0))
        } else {
            None
        },
        Production::OrdinalScale => if first_int is Some {
            ok_ordinal(ordinal_scaled_by_word(first_int->0, word_at(toks, args, 1)))
        } else {
            None
        },
        Production::LargeOrdinal => if first_int is Some && last_ord is Some {
            ok_ordinal(large_ordinal(first_int->0, last_ord->0))
        } else {
            None
        },
        Production::SmallOrdinal => if first_int is Some && last_ord is Some {
            ok_ordinal(small_ordinal(first_int->0, last_ord->0))
        } else {
            None
        },
        Production::TheOrdinal => if last_ord is Some {
            Some(Dimension::Ordinal(OrdinalValue { prefixed: true, ..last_ord->0 }))
        } else {
            None
        },
        Production::Percentage => if first_num is Some {
            Some(Dimension::Percentage(PercentageValue { value: first_num->0.decimal() }))
        } else {
            None
        },
        Production::ComposeMoney => if first_amount is Some && last_amount is Some
            && first_amount->0.value.wf() && last_amount->0.value.wf() {
            ok_amount(money_composed(first_amount->0, last_amount->0))
        } else {
            None
        },
        Production::ComposeMoneyNumber => if first_amount is Some && last_num is Some
            && first_amount->0.value.wf() && last_num->0.wf() {
            ok_amount(money_number_composed(first_amount->0, last_num->0))
        } else {
            None
        },
        Production::MoneyUnit => match money_unit_of(word_at(toks, args, 0)) {
            Some(u) => Some(Dimension::MoneyUnit(MoneyUnitValue { unit: Some(u) })),
            None => None,
        },
        Production::UnitThenAmount => if first_unit is Some && last_num is Some {
            Some(
                Dimension::AmountOfMoney(
                    AmountOfMoneyValue {
                        value: last_num->0.decimal(),
                        unit: first_unit->0.unit,
                        precision: last_num->0.precision(),
                    },
                ),
            )
        } else {
            None
        },
        Production::AmountThenUnit => if first_num is Some && last_unit is Some {
            Some(
                Dimension::AmountOfMoney(
                    AmountOfMoneyValue {
                        value: first_num->0.decimal(),
                        unit: last_unit->0.unit,
                        precision: first_num->0.precision(),
                    },
                ),
            )
        } else {
            None
        },
        Production::Approximately => if last_amount is Some {
            Some(
                Dimension::AmountOfMoney(
                    AmountOfMoneyValue { precision: Precision::Approximate, ..last_amount->0 },
                ),
            )
        } else {
            None
        },
        Production::Exactly => if last_amount is Some {
            Some(
                Dimension::AmountOfMoney(AmountOfMoneyValue { precision: Precision::Exact, ..last_amount->0 }),
            )
        } else {
            None
        },
        Production::Celebration(c) => Some(
            Dimension::Time(TimeValue { predicate: celebration_predicate(c), form: Form::Celebration }),
        ),
        Production::AdventSunday => if first_ord is Some {
            match advent_sunday_value(first_ord->0) {
                Ok(t) => Some(Dimension::Time(t)),
                Err(_) => None,
            }
        } else {
            None
        },
        Production::IntegerNumeral => match integer_numeral(word_at(toks, args, 0)) {
            Some(i) => Some(Dimension::Integer(i)),
            None => None,
        },
        Production::GroupedNumeral => match grouped_numeral(word_at(toks, args, 0)) {
            Some(i) => Some(Dimension::Integer(i)),
            None => None,
        },
        Production::DecimalNumeral => match decimal_numeral(word_at(toks, args, 0)) {
            Some(f) => Some(Dimension::Float(f)),
            None => None,
        },
        Production::GroupedDecimalNumeral => match grouped_decimal_numeral(word_at(toks, args, 0)) {
            Some(f) => Some(Dimension::Float(f)),
            None => None,
        },
        Production::OrdinalNumeral => match ordinal_numeral(word_at(toks, args, 0)) {
            Some(o) => Some(Dimension::Ordinal(o)),
            None => None,
        },
    }
}

/// The value held at a position of a match.
pub open spec fn arg_value(cands: Seq<Candidate>, a: Arg) -> Option<Dimension> {
    match a {
        Arg::Value(j) => if j < cands.len() {
            Some(cands[j as int].value)
        } else {
            None
        },
        Arg::Word(_, _) => None,
    }
}

/// The values held at the positions of a match.
pub open spec fn arg_values(cands: Seq<Candidate>, args: Seq<Arg>) -> Seq<Option<Dimension>> {
    args.map_values(|a: Arg| arg_value(cands, a))
}

fn value_of(cands: &Vec<Candidate>, a: Arg) -> (r: Option<Dimension>)
    ensures
        r == arg_value(cands@, a),
{
    match a {
        Arg::Value(j) => if j < cands.len() {
            Some(cands[j].value.copy())
        } else {
            None
        },
        Arg::Word(_, _) => None,
    }
}

fn word_of(toks: &Vec<Vec<char>>, args: &Vec<Arg>, k: usize) -> (r: Vec<char>)
    ensures
        r@ == word_at(words(toks@), args@, k as int),
{
    if k < args.len() {
        match args[k] {
            Arg::Word(s, _) => if s < toks.len() {
                return toks[s].clone();
            },
            Arg::Value(_) => {},
        }
    }
    Vec::new()
}

fn number_in(d: &Option<Dimension>) -> (r: Option<NumberValue>)
    ensures
        r == (if d is Some { number_of(d->0) } else { None::<NumberValue> }),
{
    match d {
        Some(Dimension::Integer(i)) => Some(NumberValue::Integer(*i)),
        Some(Dimension::Float(f)) => Some(NumberValue::Float(*f)),
        _ => None,
    }
}

fn integer_in(d: &Option<Dimension>) -> (r: Option<IntegerValue>)
    ensures
        r == (if d is Some { integer_of(d->0) } else { None::<IntegerValue> }),
{
    match d {
        Some(Dimension::Integer(i)) => Some(*i),
        _ => None,
    }
}

fn ordinal_in(d: &Option<Dimension>) -> (r: Option<OrdinalValue>)
    ensures
        r == (if d is Some { ordinal_of_dim(d->0) } else { None::<OrdinalValue> }),
{
    match d {
        Some(Dimension::Ordinal(o)) => Some(*o),
        _ => None,
    }
}

fn amount_in(d: &Option<Dimension>) -> (r: Option<AmountOfMoneyValue>)
    ensures
        r == (if d is Some { amount_of(d->0) } else { None::<AmountOfMoneyValue> }),
{
    match d {
        Some(Dimension::AmountOfMoney(a)) => Some(*a),
        _ => None,
    }
}

fn unit_in(d: &Option<Dimension>) -> (r: Option<MoneyUnitValue>)
    ensures
        r == (if d is Some { unit_of(d->0) } else { None::<MoneyUnitValue> }),
{
    match d {
        Some(Dimension::MoneyUnit(u)) => Some(*u),
        _ => None,
    }
}

fn number_result(r: Result<NumberValue, RuleError>) -> (d: Option<Dimension>)
    ensures
        d == ok_number(r),
{
    match r {
        Ok(NumberValue::Integer(i)) => Some(Dimension::Integer(i)),
        Ok(NumberValue::Float(f)) => Some(Dimension::Float(f)),
        Err(_) => None,
    }
}

fn integer_result(r: Result<IntegerValue, RuleError>) -> (d: Option<Dimension>)
    ensures
        d == ok_integer(r),
{
    match r {
        Ok(i) => Some(Dimension::Integer(i)),
        Err(_) => None,
    }
}

fn float_result(r: Result<FloatValue, RuleError>) -> (d: Option<Dimension>)
    ensures
        d == ok_float(r),
{
    match r {
        Ok(f) => Some(Dimension::Float(f)),
        Err(_) => None,
    }
}

fn ordinal_result(r: Result<OrdinalValue, RuleError>) -> (d: Option<Dimension>)
    ensures
        d == ok_ordinal(r),
{
    match r {
        Ok(o) => Some(Dimension::Ordinal(o)),
        Err(_) => None,
    }
}

fn amount_result(r: Result<AmountOfMoneyValue, RuleError>) -> (d: Option<Dimension>)
    ensures
        d == ok_amount(r),
{
    match r {
        Ok(a) => Some(Dimension::AmountOfMoney(a)),
        Err(_) => None,
    }
}

/// Applies production `p` to a match.
#[verifier::rlimit(40)]
pub fn apply(p: Production, toks: &Vec<Vec<char>>, args: &Vec<Arg>, cands: &Vec<Candidate>) -> (r: Option<Dimension>)
    requires
        args@.len() >= 1,
    ensures
        r == produce(p, words(toks@), args@, arg_values(cands@, args@)),
{
    let n = args.len();
    let first = value_of(cands, args[0]);
    let last = value_of(cands, args[n - 1]);
    let ghost vals = arg_values(cands@, args@);
    assert(val(vals, 0) == first);
    assert(val(vals, vals.len() - 1) == last);
    let first_num = number_in(&first);
    let last_num = number_in(&last);
    let first_int = integer_in(&first);
    let last_int = integer_in(&last);
    let first_ord = ordinal_in(&first);
    let last_ord = ordinal_in(&last);
    let first_amount = amount_in(&first);
    let last_amount = amount_in(&last);
    let first_unit = unit_in(&first);
    let last_unit = unit_in(&last);
    match p {
        Production::ComposeNumbers => match (first_num, last_num) {
            (Some(a), Some(b)) => {
                let g: u32 = match &a {
                    NumberValue::Integer(i) => match i.grain {
                        Some(g) => g as u32,
                        None => 0,
                    },
                    NumberValue::Float(_) => 0,
                };
                if g > 1 && b.value().scale <= MAX_SCALE {
                    number_result(compose_numbers(&a, &b))
                } else {
                    None
                }
            },
            _ => None,
        },
        Production::IntegerWord => {
            let w = word_of(toks, args, 0);
            match integer_word_chars(&w) {
                Some(i) => Some(Dimension::Integer(i)),
                None => None,
            }
        },
        Production::ComposeTens => match (first_int, last_int) {
            (Some(a), Some(b)) => integer_result(compose_tens(&a, &b)),
            _ => None,
        },
        Production::MultiplyByScale => match first_int {
            Some(a) => {
                let w = word_of(toks, args, 1);
                integer_result(multiply_by_scale_chars(&a, &w))
            },
            None => None,
        },
        Production::MultiplyGroup => match (first_int, last_int) {
            (Some(a), Some(b)) => integer_result(multiply_group(&a, &b)),
            _ => None,
        },
        Production::AndAHalf => match first_int {
            Some(a) => float_result(and_a_half(&a)),
            None => None,
        },
        Production::AndAQuarter => match first_int {
            Some(a) => float_result(and_a_quarter(&a)),
            None => None,
        },
        Production::Dotted => match (first_int, last_int) {
            (Some(a), Some(b)) => float_result(compose_dotted(&a, 0, &b)),
            _ => None,
        },
        Production::DottedZeros => match (first_int, last_int) {
            (Some(a), Some(b)) => {
                let tokens: usize = if n > 2 {
                    match args[2] {
                        Arg::Word(_, l) => l,
                        Arg::Value(_) => 0,
                    }
                } else {
                    0
                };
                let w = word_of(toks, args, 2);
                let zeros: usize = if chars_eq_str(&w, "a") && tokens >= 1 { tokens - 1 } else { tokens };
                if zeros > MAX_SCALE as usize {
                    proof {
                        let d = crate::number::num_digits(b.value as nat);
                        if !(a.prefixed || b.prefixed || a.value < 0 || b.value < 0) {
                            assert(zeros + d > MAX_SCALE);
                        }
                    }
                    None
                } else {
                    float_result(compose_dotted(&a, zeros as u32, &b))
                }
            },
            _ => None,
        },
        Production::Negate => match last_num {
            Some(a) => number_result(negate(&a)),
            None => None,
        },
        Production::Positive => match last_num {
            Some(a) => number_result(mark_positive(&a)),
            None => None,
        },
        Production::Suffix => match first_num {
            Some(a) => if a.value().scale <= MAX_SCALE {
                let w = word_of(toks, args, 1);
                number_result(apply_suffix_chars(&a, &w))
            } else {
                None
            },
            None => None,
        },
        Production::OrdinalWord => {
            let w = word_of(toks, args, 0);
            match ordinal_word_chars(&w) {
                Some(o) => Some(Dimension::Ordinal(o)),
                None => None,
            }
        },
        Production::OrdinalTens => match (first_int, last_ord) {
            (Some(a), Some(o)) => ordinal_result(compose_ordinal_tens(&a, &o)),
            _ => None,
        },
        Production::OrdinalScale => match first_int {
            Some(a) => {
                let w = word_of(toks, args, 1);
                ordinal_result(multiply_ordinal_by_scale_chars(&a, &w))
            },
            None => None,
        },
        Production::LargeOrdinal => match (first_int, last_ord) {
            (Some(a), Some(o)) => ordinal_result(compose_large_ordinal(&a, &o)),
            _ => None,
        },
        Production::SmallOrdinal => match (first_int, last_ord) {
            (Some(a), Some(o)) => ordinal_result(compose_small_ordinal(&a, &o)),
            _ => None,
        },
        Production::TheOrdinal => match last_ord {
            Some(o) => Some(Dimension::Ordinal(OrdinalValue { prefixed: true, ..o })),
            None => None,
        },
        Production::Percentage => match first_num {
            Some(a) => Some(Dimension::Percentage(PercentageValue { value: a.value() })),
            None => None,
        },
        Production::ComposeMoney => match (first_amount, last_amount) {
            (Some(a), Some(b)) => if a.value.scale <= MAX_SCALE && b.value.scale <= MAX_SCALE {
                amount_result(compose_money(&a, &b))
            } else {
                None
            },
            _ => None,
        },
        Production::ComposeMoneyNumber => match (first_amount, last_num) {
            (Some(a), Some(b)) => if a.value.scale <= MAX_SCALE && b.value().scale <= MAX_SCALE {
                amount_result(compose_money_number(&a, &b))
            } else {
                None
            },
            _ => None,
        },
        Production::MoneyUnit => {
            let w = word_of(toks, args, 0);
            match money_unit_lookup(&w) {
                Some(u) => Some(Dimension::MoneyUnit(MoneyUnitValue { unit: Some(u) })),
                None => None,
            }
        },
        Production::UnitThenAmount => match (first_unit, last_num) {
            (Some(u), Some(a)) => Some(
                Dimension::AmountOfMoney(
                    AmountOfMoneyValue { value: a.value(), unit: u.unit, precision: a.get_precision() },
                ),
            ),
            _ => None,
        },
        Production::AmountThenUnit => match (first_num, last_unit) {
            (Some(a), Some(u)) => Some(
                Dimension::AmountOfMoney(
                    AmountOfMoneyValue { value: a.value(), unit: u.unit, precision: a.get_precision() },
                ),
            ),
            _ => None,
        },
        Production::Approximately => match last_amount {
            Some(a) => Some(
                Dimension::AmountOfMoney(AmountOfMoneyValue { precision: Precision::Approximate, ..a }),
            ),
            None => None,
        },
        Production::Exactly => match last_amount {
            Some(a) => Some(Dimension::AmountOfMoney(AmountOfMoneyValue { precision: Precision::Exact, ..a })),
            None => None,
        },
        Production::Celebration(c) => {
            let t = celebration(c);
            Some(Dimension::Time(t))
        },
        Production::AdventSunday => match first_ord {
            Some(o) => match advent_sunday(&o) {
                Ok(t) => Some(Dimension::Time(t)),
                Err(_) => None,
            },
            None => None,
        },
        Production::IntegerNumeral => match integer_numeral_exec(&word_of(toks, args, 0)) {
            Some(i) => Some(Dimension::Integer(i)),
            None => None,
        },
        Production::GroupedNumeral => match grouped_numeral_exec(&word_of(toks, args, 0)) {
            Some(i) => Some(Dimension::Integer(i)),
            None => None,
        },
        Production::DecimalNumeral => match decimal_numeral_exec(&word_of(toks, args, 0)) {
            Some(f) => Some(Dimension::Float(f)),
            None => None,
        },
        Production::GroupedDecimalNumeral => match grouped_decimal_numeral_exec(&word_of(toks, args, 0)) {
            Some(f) => Some(Dimension::Float(f)),
            None => None,
        },
        Production::OrdinalNumeral => match ordinal_numeral_exec(&word_of(toks, args, 0)) {
            Some(o) => Some(Dimension::Ordinal(o)),
            None => None,
        },
    }
}

} // verus!

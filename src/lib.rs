//! Extraction of typed values (numbers, ordinals, decimals, amounts of money,
//! percentages and celebrations) from Irish text.
//!
//! - `engine`: rules over word classes and earlier values, registered into a
//!   rule set; `matching` applies them bottom-up over the tokens of an input;
//!   `resolve` then keeps the longest, distinct candidates.
//! - `grammar`: the Irish rules, registered into a rule set.
//! - `number`, `numerals`, `money`, `calendar`, `celebrations`: the value
//!   algebra the rules invoke.
//! - `dimension`: the values rules produce and their typed conversions.
//! - `lexicon`, `text`: the words terminal rules recognise.
//! - `lang`: the languages of the ontology.
pub mod text;
pub mod lang;
pub mod dimension;
pub mod calendar;
pub mod celebrations;
pub mod number;
pub mod numerals;
pub mod lexicon;
pub mod money;
pub mod resolve;
pub mod engine;
pub mod matching;
pub mod grammar;

//! The celebrations of the Irish calendar, as predicates built from fixed
//! dates, weekdays and offsets from Easter Sunday.
use vstd::prelude::*;
use crate::calendar::{
    day_number, easter_day, valid_offset, valid_year, weekday_of, Form, Grain, TimePredicate,
    TimeValue, Weekday, MAX_OFFSET,
};
use crate::dimension::{OrdinalValue, RuleError};

verus! {

/// The celebrations with a name of their own.
#[derive(Copy, Clone, Debug, PartialEq, Eq, Structural)]
pub enum Celebration {
    Christmas,
    ChristmasEve,
    NewYearsEve,
    NewYearsDay,
    ValentinesDay,
    PalmSunday,
    HolyThursday,
    HolyFriday,
    HolySaturday,
    Easter,
    EasterMonday,
    Ascension,
    Pentecost,
    FathersDay,
    MothersDay,
    Halloween,
    StPatricksDay,
    StBridgetsDay,
    Epiphany,
}

/// The distance in days from Easter Sunday of the celebrations that move with it.
pub open spec fn easter_offset(c: Celebration) -> Option<int> {
    match c {
        Celebration::MothersDay => Some(-21),
        Celebration::PalmSunday => Some(-7),
        Celebration::HolyThursday => Some(-3),
        Celebration::HolyFriday => Some(-2),
        Celebration::HolySaturday => Some(-1),
        Celebration::EasterMonday => Some(1),
        Celebration::Ascension => Some(39),
        Celebration::Pentecost => Some(49),
        _ => None,
    }
}

/// The month and day of the celebrations on a fixed date.
pub open spec fn fixed_date(c: Celebration) -> Option<(u8, u8)> {
    match c {
        Celebration::Christmas => Some((12u8, 25u8)),
        Celebration::ChristmasEve => Some((12u8, 24u8)),
        Celebration::NewYearsEve => Some((12u8, 31u8)),
        Celebration::NewYearsDay => Some((1u8, 1u8)),
        Celebration::ValentinesDay => Some((2u8, 14u8)),
        Celebration::Halloween => Some((10u8, 31u8)),
        Celebration::StPatricksDay => Some((3u8, 17u8)),
        Celebration::StBridgetsDay => Some((2u8, 1u8)),
        Celebration::Epiphany => Some((1u8, 6u8)),
        _ => None,
    }
}

/// Sundays of June in the week two weeks after the one of the first of June:
/// the third Sunday of June.
pub open spec fn fathers_day_predicate() -> TimePredicate {
    TimePredicate::Intersect(
        Box::new(
            TimePredicate::Intersect(
                Box::new(TimePredicate::Month(6)),
                Box::new(TimePredicate::DayOfWeek(Weekday::Sun)),
            ),
        ),
        Box::new(TimePredicate::CycleNthAfter(Grain::Week, 2, Box::new(TimePredicate::MonthDay(6, 1)))),
    )
}

/// The predicate a celebration stands for.
pub open spec fn celebration_predicate(c: Celebration) -> TimePredicate {
    if c == Celebration::Easter {
        TimePredicate::Easter
    } else if c == Celebration::FathersDay {
        fathers_day_predicate()
    } else if easter_offset(c) is Some {
        TimePredicate::CycleNthAfter(
            Grain::Day,
            easter_offset(c)->0 as i64,
            Box::new(TimePredicate::Easter),
        )
    } else {
        match fixed_date(c) {
            Some((m, d)) => TimePredicate::MonthDay(m, d),
            None => TimePredicate::Easter,
        }
    }
}

fn from_easter(n: i64) -> (r: TimeValue)
    requires
        valid_offset(n as int),
    ensures
        r == (TimeValue {
            predicate: TimePredicate::CycleNthAfter(Grain::Day, n, Box::new(TimePredicate::Easter)),
            form: Form::Celebration,
        }),
{
    TimeValue {
        predicate: TimePredicate::CycleNthAfter(Grain::Day, n, Box::new(TimePredicate::Easter)),
        form: Form::Celebration,
    }
}

fn on_date(m: u8, d: u8) -> (r: TimeValue)
    ensures
        r == (TimeValue { predicate: TimePredicate::MonthDay(m, d), form: Form::Celebration }),
{
    TimeValue { predicate: TimePredicate::MonthDay(m, d), form: Form::Celebration }
}

/// The celebration as a calendar value in the celebration form.
pub fn celebration(c: Celebration) -> (r: TimeValue)
    ensures
        r.predicate == celebration_predicate(c),
        r.form == Form::Celebration,
        r.wf(),
{
    proof {
        reveal_with_fuel(TimePredicate::wf, 4);
    }
    match c {
        Celebration::Christmas => on_date(12, 25),
        Celebration::ChristmasEve => on_date(12, 24),
        Celebration::NewYearsEve => on_date(12, 31),
        Celebration::NewYearsDay => on_date(1, 1),
        Celebration::ValentinesDay => on_date(2, 14),
        Celebration::PalmSunday => from_easter(-7),
        Celebration::HolyThursday => from_easter(-3),
        Celebration::HolyFriday => from_easter(-2),
        Celebration::HolySaturday => from_easter(-1),
        Celebration::Easter => TimeValue { predicate: TimePredicate::Easter, form: Form::Celebration },
        Celebration::EasterMonday => from_easter(1),
        Celebration::Ascension => from_easter(39),
        Celebration::Pentecost => from_easter(49),
        Celebration::FathersDay => {
            let sundays_of_june = TimePredicate::Intersect(
                Box::new(TimePredicate::Month(6)),
                Box::new(TimePredicate::DayOfWeek(Weekday::Sun)),
            );
            let second_week_of_june = TimePredicate::CycleNthAfter(
                Grain::Week,
                2,
                Box::new(TimePredicate::MonthDay(6, 1)),
            );
            TimeValue {
                predicate: TimePredicate::Intersect(
                    Box::new(sundays_of_june),
                    Box::new(second_week_of_june),
                ),
                form: Form::Celebration,
            }
        },
        Celebration::MothersDay => from_easter(-21),
        Celebration::Halloween => on_date(10, 31),
        Celebration::StPatricksDay => on_date(3, 17),
        Celebration::StBridgetsDay => on_date(2, 1),
        Celebration::Epiphany => on_date(1, 6),
    }
}

/// The `k`-th Sunday of Advent: the `(5 - k)`-th Sunday strictly before
/// Christmas. Fails for the fifth (no Sunday is zero Sundays away) and for an
/// offset beyond `MAX_OFFSET`.
pub open spec fn advent_sunday_value(ordinal: OrdinalValue) -> Result<TimeValue, RuleError> {
    if ordinal.value != 5 && valid_offset(ordinal.value - 5) {
        Ok(
            TimeValue {
                predicate: TimePredicate::NthAfter(
                    (ordinal.value - 5) as i64,
                    Weekday::Sun,
                    Box::new(TimePredicate::MonthDay(12, 25)),
                ),
                form: Form::Celebration,
            },
        )
    } else {
        Err(RuleError::Invalid)
    }
}

pub fn advent_sunday(ordinal: &OrdinalValue) -> (r: Result<TimeValue, RuleError>)
    ensures
        r == advent_sunday_value(*ordinal),
        r matches Ok(t) ==> t.wf(),
{
    if ordinal.value == 5 || ordinal.value < 5 - MAX_OFFSET || ordinal.value > 5 + MAX_OFFSET {
        return Err(RuleError::Invalid);
    }
    let n: i64 = -(4 - ordinal.value) - 1;
    proof {
        reveal_with_fuel(TimePredicate::wf, 2);
    }
    Ok(TimeValue {
        predicate: TimePredicate::NthAfter(n, Weekday::Sun, Box::new(TimePredicate::MonthDay(12, 25))),
        form: Form::Celebration,
    })
}

proof fn lemma_day_number_bounds(y: int, m: int, d: int)
    requires
        valid_year(y),
        1 <= m <= 12,
        1 <= d <= 31,
    ensures
        306 <= day_number(y, m, d) <= 400_000_000,
{
}

proof fn lemma_easter_date_range(y: int)
    requires
        valid_year(y),
    ensures
        3 <= crate::calendar::easter_month_day(y).0 <= 4,
        1 <= crate::calendar::easter_month_day(y).1 <= 31,
{
}

/// A celebration that moves with Easter falls, in every year, exactly its
/// fixed number of days from Easter Sunday of that year: Holy Thursday three
/// days before, Pentecost forty-nine days after.
pub proof fn lemma_easter_offsets(c: Celebration, y: int, z: int)
    requires
        valid_year(y),
        easter_offset(c) is Some,
    ensures
        celebration_predicate(c).holds(y, z) <==> z == easter_day(y) + easter_offset(c)->0,
{
    reveal_with_fuel(TimePredicate::holds, 2);
    lemma_easter_date_range(y);
    lemma_day_number_bounds(
        y,
        crate::calendar::easter_month_day(y).0,
        crate::calendar::easter_month_day(y).1,
    );
}

/// The `k`-th Sunday of Advent (`k` from 1 to 4) is the Sunday that lies
/// between `7 * (5 - k)` and `7 * (5 - k) - 6` days before Christmas.
pub proof fn lemma_advent_sunday(k: int, y: int, z: int)
    requires
        valid_year(y),
        1 <= k <= 4,
    ensures
        TimePredicate::NthAfter(
            (k - 5) as i64,
            Weekday::Sun,
            Box::new(TimePredicate::MonthDay(12, 25)),
        ).holds(y, z) <==> (weekday_of(z) == 6 && day_number(y, 12, 25) - 7 * (5 - k) <= z
            <= day_number(y, 12, 25) - 7 * (5 - k) + 6),
{
    lemma_day_number_bounds(y, 12, 25);
    let christmas = TimePredicate::MonthDay(12, 25);
    let c = day_number(y, 12, 25);
    assert forall|x: int| christmas.holds(y, x) <==> x == c by {
        reveal_with_fuel(TimePredicate::holds, 1);
    }
    let n = (k - 5) as i64;
    assert(n as int == k - 5);
    let b = z - 7 * n - 6;
    assert(christmas.holds_in_week(y, b) <==> b <= c <= b + 6);
    reveal_with_fuel(TimePredicate::holds, 1);
}

/// Father's Day falls on the Sunday of the year that lies fourteen to twenty
/// days after the first of June: the third Sunday of June.
pub proof fn lemma_fathers_day(y: int, z: int)
    requires
        valid_year(y),
    ensures
        celebration_predicate(Celebration::FathersDay).holds(y, z) <==> (weekday_of(z) == 6
            && day_number(y, 6, 1) + 14 <= z <= day_number(y, 6, 1) + 20 && day_number(y, 1, 1)
            <= z <= day_number(y, 12, 31)),
{
    lemma_day_number_bounds(y, 6, 1);
    lemma_day_number_bounds(y, 1, 1);
    lemma_day_number_bounds(y, 12, 31);
    let first_of_june = TimePredicate::MonthDay(6, 1);
    let j = day_number(y, 6, 1);
    assert forall|x: int| first_of_june.holds(y, x) <==> x == j by {
        reveal_with_fuel(TimePredicate::holds, 1);
    }
    let b = z - weekday_of(z) - 14;
    assert(first_of_june.holds_in_week(y, b) <==> b <= j <= b + 6);
    reveal_with_fuel(TimePredicate::holds, 3);
}

} // verus!

use rustling_ontology_ga::calendar::{
    civil_exec, cycle_nth_after, day_number_exec, day_of_week, easter, easter_date, month, month_day, Form,
    Grain, TimeValue, Weekday,
};
use rustling_ontology_ga::celebrations::{advent_sunday, celebration, Celebration};
use rustling_ontology_ga::dimension::{OrdinalValue, RuleError};

fn only_day(t: &TimeValue, year: i64) -> Vec<i64> {
    let start = day_number_exec(year, 1, 1) - 60;
    let end = day_number_exec(year, 12, 31) + 60;
    (start..=end).filter(|z| t.occurs_on(year, *z)).collect()
}

#[test]
fn easter_reference_years() {
    assert_eq!(easter_date(2024), (3, 31));
    assert_eq!(easter_date(2025), (4, 20));
    assert_eq!(easter_date(2000), (4, 23));
    assert_eq!(easter_date(1818), (3, 22));
    assert_eq!(easter_date(2038), (4, 25));
}

#[test]
fn easter_offsets() {
    let cases = [
        (Celebration::HolyThursday, 2024, 3, 28),
        (Celebration::HolyFriday, 2024, 3, 29),
        (Celebration::HolySaturday, 2024, 3, 30),
        (Celebration::Easter, 2024, 3, 31),
        (Celebration::EasterMonday, 2024, 4, 1),
        (Celebration::PalmSunday, 2025, 4, 13),
        (Celebration::Ascension, 2025, 5, 29),
        (Celebration::Pentecost, 2025, 6, 8),
        (Celebration::MothersDay, 2025, 3, 30),
    ];
    for (c, y, m, d) in cases {
        let t = celebration(c);
        assert_eq!(t.form, Form::Celebration);
        assert_eq!(only_day(&t, y), vec![day_number_exec(y, m, d)]);
    }
}

#[test]
fn fixed_celebrations() {
    assert_eq!(only_day(&celebration(Celebration::StPatricksDay), 2024), vec![day_number_exec(2024, 3, 17)]);
    assert_eq!(only_day(&celebration(Celebration::Christmas), 2023), vec![day_number_exec(2023, 12, 25)]);
    assert_eq!(only_day(&celebration(Celebration::Epiphany), 2023), vec![day_number_exec(2023, 1, 6)]);
}

#[test]
fn fathers_day_is_third_sunday_of_june() {
    let t = celebration(Celebration::FathersDay);
    assert_eq!(only_day(&t, 2024), vec![day_number_exec(2024, 6, 16)]);
    assert_eq!(only_day(&t, 2025), vec![day_number_exec(2025, 6, 15)]);
    assert_eq!(only_day(&t, 2023), vec![day_number_exec(2023, 6, 18)]);
}

#[test]
fn advent_sundays() {
    let first = advent_sunday(&OrdinalValue::new(1)).unwrap();
    assert_eq!(only_day(&first, 2024), vec![day_number_exec(2024, 12, 1)]);
    let fourth = advent_sunday(&OrdinalValue::new(4)).unwrap();
    assert_eq!(only_day(&fourth, 2024), vec![day_number_exec(2024, 12, 22)]);
    assert_eq!(only_day(&fourth, 2022), vec![day_number_exec(2022, 12, 18)]);
    assert!(advent_sunday(&OrdinalValue::new(5)).is_err());
}

#[test]
fn constructors_reject_malformed_input() {
    assert_eq!(month(13).err(), Some(RuleError::Invalid));
    assert_eq!(month_day(2, 30).err(), Some(RuleError::Invalid));
    assert!(month_day(2, 29).is_ok());
    assert_eq!(cycle_nth_after(Grain::Day, 2_000_000, &easter()).err(), Some(RuleError::Invalid));
    assert_eq!(TimeValue::the_nth_after(Weekday::Sun, 0, &easter()).err(), Some(RuleError::Invalid));
}

#[test]
fn sundays_of_june_and_week_cycles() {
    let sundays_of_june = month(6).unwrap().intersect(&day_of_week(Weekday::Sun));
    assert_eq!(
        only_day(&sundays_of_june, 2024),
        vec![
            day_number_exec(2024, 6, 2),
            day_number_exec(2024, 6, 9),
            day_number_exec(2024, 6, 16),
            day_number_exec(2024, 6, 23),
            day_number_exec(2024, 6, 30)
        ]
    );
    let week = cycle_nth_after(Grain::Week, 1, &month_day(6, 5).unwrap()).unwrap();
    let days = only_day(&week, 2024);
    assert_eq!(days.len(), 7);
    assert_eq!(days[0], day_number_exec(2024, 6, 10));
    let feb29 = month_day(2, 29).unwrap();
    assert_eq!(only_day(&feb29, 2023), Vec::<i64>::new());
    assert_eq!(only_day(&feb29, 2024), vec![day_number_exec(2024, 2, 29)]);
}

#[test]
fn civil_dates_round_trip() {
    for (y, m, d) in [(2024, 3, 31), (2024, 1, 1), (2000, 2, 29), (1999, 12, 31), (1, 3, 1), (1900, 2, 28)] {
        assert_eq!(civil_exec(day_number_exec(y, m, d)), (y, m, d));
    }
    assert_eq!(day_number_exec(1970, 1, 1), 719468);
}

#[test]
fn month_and_year_cycles() {
    let jan31 = month_day(1, 31).unwrap();
    let next_month = cycle_nth_after(Grain::Month, 1, &jan31).unwrap();
    let days: Vec<i64> = (day_number_exec(2024, 1, 1)..=day_number_exec(2024, 12, 31))
        .filter(|z| next_month.occurs_on(2024, *z))
        .collect();
    assert_eq!(days.len(), 29);
    assert_eq!(days[0], day_number_exec(2024, 2, 1));
    let before = cycle_nth_after(Grain::Month, -2, &jan31).unwrap();
    assert!(before.occurs_on(2024, day_number_exec(2023, 11, 30)));
    assert!(!before.occurs_on(2024, day_number_exec(2023, 12, 1)));
    let next_year = cycle_nth_after(Grain::Year, 1, &month_day(6, 1).unwrap()).unwrap();
    let days: Vec<i64> = (day_number_exec(2024, 1, 1)..=day_number_exec(2026, 12, 31))
        .filter(|z| next_year.occurs_on(2024, *z))
        .collect();
    assert_eq!(days.len(), 365);
    assert_eq!(days[0], day_number_exec(2025, 1, 1));
}

#[test]
fn grounding_in_a_year() {
    assert_eq!(celebration(Celebration::Easter).first_day_in_year(2024), Some(day_number_exec(2024, 3, 31)));
    assert_eq!(celebration(Celebration::Pentecost).first_day_in_year(2024), Some(day_number_exec(2024, 5, 19)));
    assert_eq!(month_day(2, 29).unwrap().first_day_in_year(2023), None);
    assert_eq!(day_of_week(Weekday::Mon).first_day_in_year(2024), Some(day_number_exec(2024, 1, 1)));
}

//! Calendar predicates: constraints over days that celebrations are built from,
//! their combinators, and the Gregorian computus.
//!
//! Days are numbered from 0000-03-01 of the proleptic Gregorian calendar
//! (day 0); a predicate is grounded relative to a reference year, so that
//! "Easter minus three days" in 2024 is one day.
use vstd::prelude::*;
use crate::dimension::RuleError;

verus! {

/// Reference years the calendar algebra works in.
pub const MIN_YEAR: i64 = 1;
pub const MAX_YEAR: i64 = 999_999;
/// The largest offset a cycle or an nth-occurrence rule may carry.
pub const MAX_OFFSET: i64 = 1_000_000;
/// Days beyond this number are outside the calendar.
pub const MAX_DAY: i64 = 10_000_000_000_000;

pub open spec fn valid_year(y: int) -> bool {
    MIN_YEAR <= y <= MAX_YEAR
}

pub open spec fn is_leap(y: int) -> bool {
    y % 4 == 0 && (y % 100 != 0 || y % 400 == 0)
}

/// The number of days of month `m` in year `y`.
pub open spec fn days_in_month(y: int, m: int) -> int {
    if m == 2 {
        if is_leap(y) { 29 } else { 28 }
    } else if m == 4 || m == 6 || m == 9 || m == 11 {
        30
    } else {
        31
    }
}

/// The number of the day `y`-`m`-`d`, counted from 0000-03-01.
pub open spec fn day_number(y: int, m: int, d: int) -> int {
    let yy = if m <= 2 { y - 1 } else { y };
    let era = yy / 400;
    let yoe = yy - era * 400;
    let mp = if m > 2 { m - 3 } else { m + 9 };
    let doy = (153 * mp + 2) / 5 + d - 1;
    let doe = yoe * 365 + yoe / 4 - yoe / 100 + doy;
    era * 146097 + doe
}

/// Monday is 0, Sunday is 6.
#[derive(Copy, Clone, Debug, PartialEq, Eq, Structural)]
pub enum Weekday {
    Mon,
    Tue,
    Wed,
    Thu,
    Fri,
    Sat,
    Sun,
}

impl Weekday {
    pub open spec fn index(self) -> int {
        match self {
            Weekday::Mon => 0,
            Weekday::Tue => 1,
            Weekday::Wed => 2,
            Weekday::Thu => 3,
            Weekday::Fri => 4,
            Weekday::Sat => 5,
            Weekday::Sun => 6,
        }
    }

    pub fn index_exec(&self) -> (r: i64)
        ensures
            r == self.index(),
    {
        match self {
            Weekday::Mon => 0,
            Weekday::Tue => 1,
            Weekday::Wed => 2,
            Weekday::Thu => 3,
            Weekday::Fri => 4,
            Weekday::Sat => 5,
            Weekday::Sun => 6,
        }
    }
}

/// The weekday of day `z` as an index (day 0 was a Wednesday).
pub open spec fn weekday_of(z: int) -> int {
    (z + 2) % 7
}

/// The year, month and day of day `z` (`z >= 0`).
pub open spec fn civil_of(z: int) -> (int, int, int) {
    let era = z / 146097;
    let doe = z - era * 146097;
    let yoe = (doe - doe / 1460 + doe / 36524 - doe / 146096) / 365;
    let doy = doe - (365 * yoe + yoe / 4 - yoe / 100);
    let mp = (5 * doy + 2) / 153;
    let d = doy - (153 * mp + 2) / 5 + 1;
    let m = if mp < 10 { mp + 3 } else { mp - 9 };
    let y = yoe + era * 400 + if m <= 2 { 1int } else { 0int };
    (y, m, d)
}

/// The Gregorian computus (anonymous algorithm): the month and day of Easter Sunday.
pub open spec fn easter_month_day(y: int) -> (int, int) {
    let a = y % 19;
    let b = y / 100;
    let c = y % 100;
    let d = b / 4;
    let e = b % 4;
    let f = (b + 8) / 25;
    let g = (b - f + 1) / 3;
    let h = (19 * a + b - d - g + 15) % 30;
    let i = c / 4;
    let k = c % 4;
    let l = (32 + 2 * e + 2 * i - h - k) % 7;
    let m = (a + 11 * h + 22 * l) / 451;
    let n = h + l - 7 * m + 114;
    (n / 31, n % 31 + 1)
}

/// The number of Easter Sunday of year `y`.
pub open spec fn easter_day(y: int) -> int {
    day_number(y, easter_month_day(y).0, easter_month_day(y).1)
}

/// The unit a cycle shifts by.
#[derive(Copy, Clone, Debug, PartialEq, Eq, Structural)]
pub enum Grain {
    Day,
    Week,
    Month,
    Year,
}

/// How a time value presents itself.
#[derive(Copy, Clone, Debug, PartialEq, Eq, Structural)]
pub enum Form {
    Plain,
    Celebration,
}

/// A constraint over days.
#[derive(Debug, PartialEq)]
pub enum TimePredicate {
    /// Every day of that weekday.
    DayOfWeek(Weekday),
    /// Every day of that month.
    Month(u8),
    /// That day of that month.
    MonthDay(u8, u8),
    /// Easter Sunday.
    Easter,
    /// The days that satisfy both.
    Intersect(Box<TimePredicate>, Box<TimePredicate>),
    /// The `Day`, the whole Monday-to-Sunday `Week`, the whole `Month` or the
    /// whole `Year` that lies `n` units of the grain after an anchor day
    /// (before it when `n` is negative).
    CycleNthAfter(Grain, i64, Box<TimePredicate>),
    /// The `n`-th day of that weekday strictly after an anchor day (strictly
    /// before it when `n` is negative).
    NthAfter(i64, Weekday, Box<TimePredicate>),
}

pub open spec fn valid_offset(n: int) -> bool {
    -MAX_OFFSET <= n <= MAX_OFFSET
}

impl TimePredicate {
    pub open spec fn wf(self) -> bool
        decreases self,
    {
        match self {
            TimePredicate::DayOfWeek(_) => true,
            TimePredicate::Easter => true,
            TimePredicate::Month(m) => 1 <= m <= 12,
            TimePredicate::MonthDay(m, d) => 1 <= m <= 12 && 1 <= d <= days_in_month(2000, m as int),
            TimePredicate::Intersect(p, q) => p.wf() && q.wf(),
            TimePredicate::CycleNthAfter(_, n, p) => valid_offset(n as int) && p.wf(),
            TimePredicate::NthAfter(n, _, p) => valid_offset(n as int) && n != 0 && p.wf(),
        }
    }

    /// Day `z` is an occurrence of the predicate grounded in year `y`.
    pub open spec fn holds(self, y: int, z: int) -> bool
        decreases self, 0int,
    {
        if !(0 <= z <= MAX_DAY) {
            false
        } else {
            match self {
                TimePredicate::DayOfWeek(w) => day_number(y, 1, 1) <= z <= day_number(y, 12, 31)
                    && weekday_of(z) == w.index(),
                TimePredicate::Month(m) => day_number(y, m as int, 1) <= z < day_number(
                    y,
                    m as int,
                    1,
                ) + days_in_month(y, m as int),
                TimePredicate::MonthDay(m, d) => d <= days_in_month(y, m as int) && z
                    == day_number(y, m as int, d as int),
                TimePredicate::Easter => z == easter_day(y),
                TimePredicate::Intersect(p, q) => p.holds(y, z) && q.holds(y, z),
                TimePredicate::CycleNthAfter(Grain::Day, n, p) => p.holds(y, z - n),
                TimePredicate::CycleNthAfter(Grain::Week, n, p) => p.holds_in_week(
                    y,
                    z - weekday_of(z) - 7 * n,
                ),
                TimePredicate::NthAfter(n, w, p) => weekday_of(z) == w.index() && p.holds_in_week(
                    y,
                    if n > 0 { z - 7 * n } else { z - 7 * n - 6 },
                ),
                TimePredicate::CycleNthAfter(Grain::Month, n, p) => {
                    let t = civil_of(z).0 * 12 + (civil_of(z).1 - 1) - n;
                    p.holds_in_month(y, t / 12, t % 12 + 1)
                },
                TimePredicate::CycleNthAfter(Grain::Year, n, p) => p.holds_in_year(y, civil_of(z).0 - n),
            }
        }
    }

    /// The predicate holds on some day of month `m` of year `ty`.
    pub open spec fn holds_in_month(self, y: int, ty: int, m: int) -> bool
        decreases self, 1int,
    {
        if !valid_year(ty) || !(1 <= m <= 12) {
            false
        } else {
            let b = day_number(ty, m, 1);
            let dim = days_in_month(ty, m);
            self.holds(y, b) || self.holds(y, b + 1) || self.holds(y, b + 2) || self.holds(y, b + 3) || self.holds(y, b + 4) || self.holds(y, b + 5) || self.holds(y, b + 6) || self.holds(y, b + 7) || self.holds(y, b + 8) || self.holds(y, b + 9) || self.holds(y, b + 10) || self.holds(y, b + 11) || self.holds(y, b + 12) || self.holds(y, b + 13) || self.holds(y, b + 14) || self.holds(y, b + 15) || self.holds(y, b + 16) || self.holds(y, b + 17) || self.holds(y, b + 18) || self.holds(y, b + 19) || self.holds(y, b + 20) || self.holds(y, b + 21) || self.holds(y, b + 22) || self.holds(y, b + 23) || self.holds(y, b + 24) || self.holds(y, b + 25) || self.holds(y, b + 26) || self.holds(y, b + 27) || (dim > 28 && self.holds(y, b + 28))
                || (dim > 29 && self.holds(y, b + 29)) || (dim > 30 && self.holds(y, b + 30))
        }
    }

    /// The predicate holds on some day of year `ty`.
    pub open spec fn holds_in_year(self, y: int, ty: int) -> bool
        decreases self, 2int,
    {
        self.holds_in_month(y, ty, 1) || self.holds_in_month(y, ty, 2) || self.holds_in_month(y, ty, 3)
            || self.holds_in_month(y, ty, 4) || self.holds_in_month(y, ty, 5) || self.holds_in_month(
            y,
            ty,
            6,
        ) || self.holds_in_month(y, ty, 7) || self.holds_in_month(y, ty, 8) || self.holds_in_month(
            y,
            ty,
            9,
        ) || self.holds_in_month(y, ty, 10) || self.holds_in_month(y, ty, 11)
            || self.holds_in_month(y, ty, 12)
    }

    /// The predicate holds on one of the seven days from day `b` on.
    pub open spec fn holds_in_week(self, y: int, b: int) -> bool
        decreases self, 1int,
    {
        self.holds(y, b) || self.holds(y, b + 1) || self.holds(y, b + 2) || self.holds(y, b + 3)
            || self.holds(y, b + 4) || self.holds(y, b + 5) || self.holds(y, b + 6)
    }

    /// A copy of the predicate.
    pub fn copy(&self) -> (r: TimePredicate)
        ensures
            r == *self,
        decreases self,
    {
        match self {
            TimePredicate::DayOfWeek(w) => TimePredicate::DayOfWeek(*w),
            TimePredicate::Month(m) => TimePredicate::Month(*m),
            TimePredicate::MonthDay(m, d) => TimePredicate::MonthDay(*m, *d),
            TimePredicate::Easter => TimePredicate::Easter,
            TimePredicate::Intersect(p, q) => TimePredicate::Intersect(
                Box::new((**p).copy()),
                Box::new((**q).copy()),
            ),
            TimePredicate::CycleNthAfter(g, n, p) => TimePredicate::CycleNthAfter(
                *g,
                *n,
                Box::new((**p).copy()),
            ),
            TimePredicate::NthAfter(n, w, p) => TimePredicate::NthAfter(
                *n,
                *w,
                Box::new((**p).copy()),
            ),
        }
    }
}

impl Clone for TimePredicate {
    fn clone(&self) -> (r: TimePredicate)
        ensures
            r == *self,
    {
        self.copy()
    }
}

/// A calendar value: a predicate and the form it was produced in.
#[derive(Clone, Debug, PartialEq)]
pub struct TimeValue {
    pub predicate: TimePredicate,
    pub form: Form,
}

impl TimeValue {
    pub open spec fn wf(self) -> bool {
        self.predicate.wf()
    }

    pub fn clone_value(&self) -> (r: TimeValue)
        ensures
            r == *self,
    {
        TimeValue { predicate: self.predicate.copy(), form: self.form }
    }
}


pub fn is_leap_exec(y: i64) -> (r: bool)
    requires
        valid_year(y as int),
    ensures
        r == is_leap(y as int),
{
    y % 4 == 0 && (y % 100 != 0 || y % 400 == 0)
}

pub fn days_in_month_exec(y: i64, m: i64) -> (r: i64)
    requires
        valid_year(y as int),
    ensures
        r == days_in_month(y as int, m as int),
        28 <= r <= 31,
{
    if m == 2 {
        if is_leap_exec(y) {
            29
        } else {
            28
        }
    } else if m == 4 || m == 6 || m == 9 || m == 11 {
        30
    } else {
        31
    }
}

/// The number of the day `y`-`m`-`d`.
pub fn day_number_exec(y: i64, m: i64, d: i64) -> (r: i64)
    requires
        valid_year(y as int),
        1 <= m <= 12,
        0 <= d <= 400,
    ensures
        r == day_number(y as int, m as int, d as int),
        0 <= r <= 400_000_000,
{
    let yy: i64 = if m <= 2 { y - 1 } else { y };
    let era: i64 = yy / 400;
    let yoe: i64 = yy - era * 400;
    let mp: i64 = if m > 2 { m - 3 } else { m + 9 };
    let doy: i64 = (153 * mp + 2) / 5 + d - 1;
    let doe: i64 = yoe * 365 + yoe / 4 - yoe / 100 + doy;
    era * 146097 + doe
}

/// The weekday index of day `z`.
pub fn weekday_exec(z: i64) -> (r: i64)
    requires
        0 <= z <= MAX_DAY,
    ensures
        r == weekday_of(z as int),
        0 <= r < 7,
{
    (z + 2) % 7
}

/// The year, month and day of day `z`.
pub fn civil_exec(z: i64) -> (r: (i64, i64, i64))
    requires
        0 <= z <= MAX_DAY,
    ensures
        r.0 == civil_of(z as int).0,
        r.1 == civil_of(z as int).1,
        r.2 == civil_of(z as int).2,
        0 <= r.0 <= 30_000_000_000,
        1 <= r.1 <= 12,
{
    let era: i64 = z / 146097;
    let doe: i64 = z - era * 146097;
    let yoe: i64 = (doe - doe / 1460 + doe / 36524 - doe / 146096) / 365;
    let doy: i64 = doe - (365 * yoe + yoe / 4 - yoe / 100);
    let mp: i64 = (5 * doy + 2) / 153;
    let d: i64 = doy - (153 * mp + 2) / 5 + 1;
    let m: i64 = if mp < 10 { mp + 3 } else { mp - 9 };
    let y: i64 = yoe + era * 400 + if m <= 2 { 1 } else { 0 };
    (y, m, d)
}

/// The month and day of Easter Sunday in year `y`.
pub fn easter_date(y: i64) -> (r: (i64, i64))
    requires
        valid_year(y as int),
    ensures
        r.0 == easter_month_day(y as int).0,
        r.1 == easter_month_day(y as int).1,
        3 <= r.0 <= 4,
        1 <= r.1 <= 31,
{
    let a: i64 = y % 19;
    let b: i64 = y / 100;
    let c: i64 = y % 100;
    let d: i64 = b / 4;
    let e: i64 = b % 4;
    let f: i64 = (b + 8) / 25;
    let g: i64 = (b - f + 1) / 3;
    let h: i64 = (19 * a + b - d - g + 15) % 30;
    let i: i64 = c / 4;
    let k: i64 = c % 4;
    let l: i64 = (32 + 2 * e + 2 * i - h - k) % 7;
    let m: i64 = (a + 11 * h + 22 * l) / 451;
    let n: i64 = h + l - 7 * m + 114;
    (n / 31, n % 31 + 1)
}

/// The number of Easter Sunday in year `y`.
pub fn easter_day_exec(y: i64) -> (r: i64)
    requires
        valid_year(y as int),
    ensures
        r == easter_day(y as int),
{
    let (m, d) = easter_date(y);
    day_number_exec(y, m, d)
}

impl TimePredicate {
    /// Whether the predicate holds on one of the seven days from day `b` on.
    fn occurs_in_week(&self, y: i64, b: i64) -> (r: bool)
        requires
            valid_year(y as int),
            self.wf(),
            -8_000_000 <= b <= MAX_DAY + 8_000_000,
        ensures
            r == self.holds_in_week(y as int, b as int),
        decreases self, 1int,
    {
        self.occurs_on(y, b) || self.occurs_on(y, b + 1) || self.occurs_on(y, b + 2)
            || self.occurs_on(y, b + 3) || self.occurs_on(y, b + 4) || self.occurs_on(y, b + 5)
            || self.occurs_on(y, b + 6)
    }

    /// Whether the predicate holds on some day of month `m` of year `ty`.
    fn occurs_in_month(&self, y: i64, ty: i64, m: i64) -> (r: bool)
        requires
            valid_year(y as int),
            self.wf(),
        ensures
            r == self.holds_in_month(y as int, ty as int, m as int),
        decreases self, 1int,
    {
        if ty < MIN_YEAR || ty > MAX_YEAR || m < 1 || m > 12 {
            return false;
        }
        let b = day_number_exec(ty, m, 1);
        let dim = days_in_month_exec(ty, m);
        self.occurs_on(y, b) || self.occurs_on(y, b + 1) || self.occurs_on(y, b + 2) || self.occurs_on(y, b + 3) || self.occurs_on(y, b + 4) || self.occurs_on(y, b + 5) || self.occurs_on(y, b + 6) || self.occurs_on(y, b + 7) || self.occurs_on(y, b + 8) || self.occurs_on(y, b + 9) || self.occurs_on(y, b + 10) || self.occurs_on(y, b + 11) || self.occurs_on(y, b + 12) || self.occurs_on(y, b + 13) || self.occurs_on(y, b + 14) || self.occurs_on(y, b + 15) || self.occurs_on(y, b + 16) || self.occurs_on(y, b + 17) || self.occurs_on(y, b + 18) || self.occurs_on(y, b + 19) || self.occurs_on(y, b + 20) || self.occurs_on(y, b + 21) || self.occurs_on(y, b + 22) || self.occurs_on(y, b + 23) || self.occurs_on(y, b + 24) || self.occurs_on(y, b + 25) || self.occurs_on(y, b + 26) || self.occurs_on(y, b + 27) || (dim > 28 && self.occurs_on(y, b + 28))
            || (dim > 29 && self.occurs_on(y, b + 29)) || (dim > 30 && self.occurs_on(y, b + 30))
    }

    /// Whether the predicate holds on some day of year `ty`.
    fn occurs_in_year(&self, y: i64, ty: i64) -> (r: bool)
        requires
            valid_year(y as int),
            self.wf(),
        ensures
            r == self.holds_in_year(y as int, ty as int),
        decreases self, 2int,
    {
        self.occurs_in_month(y, ty, 1) || self.occurs_in_month(y, ty, 2) || self.occurs_in_month(y, ty, 3)
            || self.occurs_in_month(y, ty, 4) || self.occurs_in_month(y, ty, 5)
            || self.occurs_in_month(y, ty, 6) || self.occurs_in_month(y, ty, 7)
            || self.occurs_in_month(y, ty, 8) || self.occurs_in_month(y, ty, 9)
            || self.occurs_in_month(y, ty, 10) || self.occurs_in_month(y, ty, 11)
            || self.occurs_in_month(y, ty, 12)
    }

    /// Whether day `z` is an occurrence of the predicate grounded in year `y`.
    pub fn occurs_on(&self, y: i64, z: i64) -> (r: bool)
        requires
            valid_year(y as int),
            self.wf(),
        ensures
            r == self.holds(y as int, z as int),
        decreases self, 0int,
    {
        if z < 0 || z > MAX_DAY {
            return false;
        }
        match self {
            TimePredicate::DayOfWeek(w) => {
                let first = day_number_exec(y, 1, 1);
                let last = day_number_exec(y, 12, 31);
                first <= z && z <= last && weekday_exec(z) == w.index_exec()
            },
            TimePredicate::Month(m) => {
                let first = day_number_exec(y, *m as i64, 1);
                first <= z && z < first + days_in_month_exec(y, *m as i64)
            },
            TimePredicate::MonthDay(m, d) => {
                (*d as i64) <= days_in_month_exec(y, *m as i64) && z == day_number_exec(
                    y,
                    *m as i64,
                    *d as i64,
                )
            },
            TimePredicate::Easter => z == easter_day_exec(y),
            TimePredicate::Intersect(p, q) => p.occurs_on(y, z) && q.occurs_on(y, z),
            TimePredicate::CycleNthAfter(Grain::Day, n, p) => p.occurs_on(y, z - *n),
            TimePredicate::CycleNthAfter(Grain::Week, n, p) => {
                let b: i64 = z - weekday_exec(z) - 7 * *n;
                p.occurs_in_week(y, b)
            },
            TimePredicate::NthAfter(n, w, p) => {
                if weekday_exec(z) != w.index_exec() {
                    return false;
                }
                let b: i64 = if *n > 0 { z - 7 * *n } else { z - 7 * *n - 6 };
                p.occurs_in_week(y, b)
            },
            TimePredicate::CycleNthAfter(Grain::Month, n, p) => {
                let (zy, zm, _) = civil_exec(z);
                let t: i64 = zy * 12 + (zm - 1) - *n;
                if t < 0 {
                    proof {
                        assert((t as int) / 12 < 1) by (nonlinear_arith)
                            requires
                                t < 0,
                        ;
                        assert(!p.holds_in_month(y as int, (t as int) / 12, (t as int) % 12 + 1));
                    }
                    return false;
                }
                p.occurs_in_month(y, t / 12, t % 12 + 1)
            },
            TimePredicate::CycleNthAfter(Grain::Year, n, p) => {
                let (zy, _, _) = civil_exec(z);
                p.occurs_in_year(y, zy - *n)
            },
        }
    }
}

/// Every day of weekday `w`.
pub fn day_of_week(w: Weekday) -> (r: TimeValue)
    ensures
        r == (TimeValue { predicate: TimePredicate::DayOfWeek(w), form: Form::Plain }),
        r.wf(),
{
    TimeValue { predicate: TimePredicate::DayOfWeek(w), form: Form::Plain }
}

/// Every day of month `m`; fails unless `m` is a month.
pub fn month(m: u8) -> (r: Result<TimeValue, RuleError>)
    ensures
        r is Ok <==> 1 <= m <= 12,
        r matches Ok(t) ==> t == (TimeValue { predicate: TimePredicate::Month(m), form: Form::Plain })
            && t.wf(),
        r matches Err(e) ==> e == RuleError::Invalid,
{
    if 1 <= m && m <= 12 {
        Ok(TimeValue { predicate: TimePredicate::Month(m), form: Form::Plain })
    } else {
        Err(RuleError::Invalid)
    }
}

/// Day `d` of month `m`; fails unless some year has that day (the 29th of
/// February counts).
pub fn month_day(m: u8, d: u8) -> (r: Result<TimeValue, RuleError>)
    ensures
        r is Ok <==> 1 <= m <= 12 && 1 <= d <= days_in_month(2000, m as int),
        r matches Ok(t) ==> t == (TimeValue {
            predicate: TimePredicate::MonthDay(m, d),
            form: Form::Plain,
        }) && t.wf(),
        r matches Err(e) ==> e == RuleError::Invalid,
{
    if 1 <= m && m <= 12 && 1 <= d && (d as i64) <= days_in_month_exec(2000, m as i64) {
        Ok(TimeValue { predicate: TimePredicate::MonthDay(m, d), form: Form::Plain })
    } else {
        Err(RuleError::Invalid)
    }
}

/// Easter Sunday, by the Gregorian computus.
pub fn easter() -> (r: TimeValue)
    ensures
        r == (TimeValue { predicate: TimePredicate::Easter, form: Form::Plain }),
        r.wf(),
{
    TimeValue { predicate: TimePredicate::Easter, form: Form::Plain }
}

/// The `Day` or `Week` lying `n` units of `grain` after the anchor; fails on an
/// offset beyond `MAX_OFFSET`.
pub fn cycle_nth_after(grain: Grain, n: i64, anchor: &TimeValue) -> (r: Result<TimeValue, RuleError>)
    requires
        anchor.wf(),
    ensures
        r is Ok <==> valid_offset(n as int),
        r matches Ok(t) ==> t == (TimeValue {
            predicate: TimePredicate::CycleNthAfter(grain, n, Box::new(anchor.predicate)),
            form: Form::Plain,
        }) && t.wf(),
        r matches Err(e) ==> e == RuleError::Invalid,
{
    if -MAX_OFFSET <= n && n <= MAX_OFFSET {
        Ok(TimeValue {
            predicate: TimePredicate::CycleNthAfter(grain, n, Box::new(anchor.predicate.copy())),
            form: Form::Plain,
        })
    } else {
        Err(RuleError::Invalid)
    }
}

impl TimeValue {
    /// The days that satisfy both values.
    pub fn intersect(&self, other: &TimeValue) -> (r: TimeValue)
        requires
            self.wf(),
            other.wf(),
        ensures
            r == (TimeValue {
                predicate: TimePredicate::Intersect(
                    Box::new(self.predicate),
                    Box::new(other.predicate),
                ),
                form: Form::Plain,
            }),
            r.wf(),
    {
        TimeValue {
            predicate: TimePredicate::Intersect(
                Box::new(self.predicate.copy()),
                Box::new(other.predicate.copy()),
            ),
            form: Form::Plain,
        }
    }

    /// The `n`-th day of weekday `w` strictly after the anchor (strictly before
    /// it when `n` is negative); fails when `n` is zero or beyond `MAX_OFFSET`.
    pub fn the_nth_after(w: Weekday, n: i64, anchor: &TimeValue) -> (r: Result<TimeValue, RuleError>)
        requires
            anchor.wf(),
        ensures
            r is Ok <==> n != 0 && valid_offset(n as int),
            r matches Ok(t) ==> t == (TimeValue {
                predicate: TimePredicate::NthAfter(n, w, Box::new(anchor.predicate)),
                form: Form::Plain,
            }) && t.wf(),
            r matches Err(e) ==> e == RuleError::Invalid,
    {
        if n != 0 && -MAX_OFFSET <= n && n <= MAX_OFFSET {
            Ok(TimeValue {
                predicate: TimePredicate::NthAfter(n, w, Box::new(anchor.predicate.copy())),
                form: Form::Plain,
            })
        } else {
            Err(RuleError::Invalid)
        }
    }

    /// The same predicate in form `f`.
    pub fn with_form(self, f: Form) -> (r: TimeValue)
        ensures
            r == (TimeValue { form: f, ..self }),
    {
        TimeValue { predicate: self.predicate, form: f }
    }

    /// Whether day `z` is an occurrence of the value grounded in year `y`.
    pub fn occurs_on(&self, y: i64, z: i64) -> (r: bool)
        requires
            valid_year(y as int),
            self.wf(),
        ensures
            r == self.predicate.holds(y as int, z as int),
    {
        self.predicate.occurs_on(y, z)
    }

    /// The first day of calendar year `y` on which the value, grounded in
    /// `y`, occurs; `None` when it occurs on no day of that year.
    pub fn first_day_in_year(&self, y: i64) -> (r: Option<i64>)
        requires
            valid_year(y as int),
            self.wf(),
        ensures
            r matches Some(z) ==> day_number(y as int, 1, 1) <= z <= day_number(y as int, 12, 31)
                && self.predicate.holds(y as int, z as int) && forall|w: int|
                day_number(y as int, 1, 1) <= w < z ==> !#[trigger] self.predicate.holds(y as int, w),
            r is None ==> forall|w: int|
                day_number(y as int, 1, 1) <= w <= day_number(y as int, 12, 31) ==> !#[trigger] self.predicate.holds(
                    y as int,
                    w,
                ),
    {
        let first = day_number_exec(y, 1, 1);
        let last = day_number_exec(y, 12, 31);
        let mut z: i64 = first;
        while z <= last
            invariant
                first == day_number(y as int, 1, 1),
                last == day_number(y as int, 12, 31),
                0 <= last <= 400_000_000,
                first <= z <= last + 1,
                valid_year(y as int),
                self.wf(),
                forall|w: int| first <= w < z ==> !#[trigger] self.predicate.holds(y as int, w),
            decreases last + 1 - z,
        {
            if self.predicate.occurs_on(y, z) {
                return Some(z);
            }
            z = z + 1;
        }
        None
    }
}

impl TimePredicate {
    /// Whether two predicates are the same.
    pub fn same(&self, other: &TimePredicate) -> (r: bool)
        ensures
            r == (*self == *other),
        decreases self,
    {
        match (self, other) {
            (TimePredicate::DayOfWeek(a), TimePredicate::DayOfWeek(b)) => *a == *b,
            (TimePredicate::Month(a), TimePredicate::Month(b)) => *a == *b,
            (TimePredicate::MonthDay(a, c), TimePredicate::MonthDay(b, d)) => *a == *b && *c == *d,
            (TimePredicate::Easter, TimePredicate::Easter) => true,
            (TimePredicate::Intersect(a, c), TimePredicate::Intersect(b, d)) => {
                let first = (**a).same(&**b);
                let second = (**c).same(&**d);
                first && second
            },
            (TimePredicate::CycleNthAfter(g, n, a), TimePredicate::CycleNthAfter(h, m, b)) => {
                *g == *h && *n == *m && (**a).same(&**b)
            },
            (TimePredicate::NthAfter(n, v, a), TimePredicate::NthAfter(m, w, b)) => {
                *n == *m && *v == *w && (**a).same(&**b)
            },
            _ => false,
        }
    }
}

} // verus!

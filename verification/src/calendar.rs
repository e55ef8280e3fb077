//! The proleptic Gregorian calendar, as far as the menu dates need it:
//! which dates exist, and on which weekday a date falls.

use vstd::prelude::*;

verus! {

/// The first year a date may lie in: the first that `chrono` holds.
pub const MIN_YEAR: i32 = -262143;

/// The last year a date may lie in: the last that `chrono` holds.
pub const MAX_YEAR: i32 = 262142;

/// A day of the week.
#[derive(Clone, Copy, Debug, PartialEq, Eq, Structural)]
pub enum Weekday {
    Mon,
    Tue,
    Wed,
    Thu,
    Fri,
    Sat,
    Sun,
}

/// A calendar day as three mathematical integers.
pub struct CalendarDay {
    pub year: int,
    pub month: int,
    pub day: int,
}

/// A year with a twenty-ninth of February.
pub open spec fn is_leap_year(year: int) -> bool {
    year % 4 == 0 && (year % 100 != 0 || year % 400 == 0)
}

/// How many days the month has in that year.
pub open spec fn days_in_month(year: int, month: int) -> int {
    if month == 2 {
        if is_leap_year(year) {
            29
        } else {
            28
        }
    } else if month == 4 || month == 6 || month == 9 || month == 11 {
        30
    } else {
        31
    }
}

/// The date exists, in a year that a date may lie in.
pub open spec fn is_valid_date(year: int, month: int, day: int) -> bool {
    &&& MIN_YEAR <= year <= MAX_YEAR
    &&& 1 <= month <= 12
    &&& 1 <= day <= days_in_month(year, month)
}

/// The number of days between the first of January of the year 1 and the
/// first of January of `year` (negative before the year 1).
pub open spec fn days_before_year(year: int) -> int {
    let y = year - 1;
    365 * y + y / 4 - y / 100 + y / 400
}

/// The number of days of `year` that lie before the first of `month`.
pub open spec fn days_before_month(year: int, month: int) -> int
    decreases month,
{
    if month <= 1 {
        0
    } else {
        days_before_month(year, month - 1) + days_in_month(year, month - 1)
    }
}

/// The running number of a day, where the first of January of the year 1
/// has the number 1.
pub open spec fn day_number(year: int, month: int, day: int) -> int {
    days_before_year(year) + days_before_month(year, month) + day
}

/// The weekday with the given offset from Monday.
pub open spec fn weekday_at(offset: int) -> Weekday {
    if offset == 0 {
        Weekday::Mon
    } else if offset == 1 {
        Weekday::Tue
    } else if offset == 2 {
        Weekday::Wed
    } else if offset == 3 {
        Weekday::Thu
    } else if offset == 4 {
        Weekday::Fri
    } else if offset == 5 {
        Weekday::Sat
    } else {
        Weekday::Sun
    }
}

/// The weekday a date falls on: the first of January of the year 1 was a
/// Monday, and the weekdays repeat every seven days.
pub open spec fn weekday_of(year: int, month: int, day: int) -> Weekday {
    weekday_at((day_number(year, month, day) - 1) % 7)
}

/// A year is as many days long as its months together: 365, or 366 with
/// a twenty-ninth of February.
pub proof fn lemma_year_length(year: int)
    ensures
        days_before_year(year + 1) == days_before_year(year) + days_before_month(year, 13),
        days_before_month(year, 13) == if is_leap_year(year) {
            366int
        } else {
            365int
        },
{
    reveal_with_fuel(days_before_month, 14);
}

/// The first days of later years have larger numbers.
pub proof fn lemma_years_in_order(earlier: int, later: int)
    requires
        earlier <= later,
    ensures
        days_before_year(earlier) + 365 * (later - earlier) <= days_before_year(later),
    decreases later - earlier,
{
    if earlier < later {
        lemma_years_in_order(earlier, later - 1);
        lemma_year_length(later - 1);
    }
}

/// A day keeps within its year: it lies after the days before its month
/// and not after the last day of the year.
pub proof fn lemma_day_in_year(year: int, month: int, day: int)
    requires
        is_valid_date(year, month, day),
    ensures
        days_before_month(year, month) + days_in_month(year, month) <= days_before_month(
            year,
            13,
        ),
        forall|later: int|
            month < later <= 12 ==> days_before_month(year, month) + days_in_month(year, month)
                <= #[trigger] days_before_month(year, later),
{
    reveal_with_fuel(days_before_month, 14);
}

/// No two days have the same running number.
pub proof fn lemma_day_number_unique(a: CalendarDay, b: CalendarDay)
    requires
        is_valid_date(a.year, a.month, a.day),
        is_valid_date(b.year, b.month, b.day),
        day_number(a.year, a.month, a.day) == day_number(b.year, b.month, b.day),
    ensures
        a == b,
{
    lemma_day_in_year(a.year, a.month, a.day);
    lemma_day_in_year(b.year, b.month, b.day);
    if a.year < b.year {
        lemma_year_length(a.year);
        lemma_years_in_order(a.year + 1, b.year);
        assert(days_before_month(b.year, b.month) >= 0) by {
            reveal_with_fuel(days_before_month, 14);
        }
    } else if b.year < a.year {
        lemma_year_length(b.year);
        lemma_years_in_order(b.year + 1, a.year);
        assert(days_before_month(a.year, a.month) >= 0) by {
            reveal_with_fuel(days_before_month, 14);
        }
    } else if a.month < b.month {
        assert(days_before_month(a.year, a.month) + days_in_month(a.year, a.month)
            <= days_before_month(a.year, b.month));
    } else if b.month < a.month {
        assert(days_before_month(b.year, b.month) + days_in_month(b.year, b.month)
            <= days_before_month(b.year, a.month));
    }
}

} // verus!

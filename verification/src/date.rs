//! The date of a menu: a calendar day at a fixed offset of two hours east
//! of UTC, read from and written as a text such as `Ma 3.11`.

use crate::calendar::{
    day_number, days_before_month, is_valid_date, lemma_day_in_year, lemma_day_number_unique,
    lemma_year_length, lemma_years_in_order, weekday_of, CalendarDay, Weekday, MAX_YEAR,
    MIN_YEAR,
};
use crate::error::{decode_result_model, DecoderError, DecoderFailure};
use crate::text::{
    decimal, digit, is_letter, lemma_decimal_digits, lemma_short_number_of_decimal, letter,
    push_decimal, short_number,
};
use chrono::{DateTime, Datelike, NaiveDate};
use std::time::{SystemTime, UNIX_EPOCH};
use vstd::prelude::*;
use vstd::string::*;

verus! {

/// By how many seconds the dates of the menus lie east of UTC.
pub const UTC_OFFSET_SECONDS: i32 = 7200;

/// A calendar day at the offset of the menus.  Every value is a day that
/// exists.
#[derive(Clone, Copy, Debug, PartialEq, Eq, Structural)]
pub struct UnicafeDate {
    year: i32,
    month: u32,
    day: u32,
}

impl DeepView for UnicafeDate {
    type V = CalendarDay;

    closed spec fn deep_view(&self) -> CalendarDay {
        CalendarDay { year: self.year as int, month: self.month as int, day: self.day as int }
    }
}

/// `chrono::NaiveDate::from_ymd_opt`, asked whether it finds a date: it
/// does for the days that exist, in the years that chrono can hold.
#[verifier::external_body]
fn date_exists(year: i32, month: u32, day: u32) -> (r: bool)
    ensures
        r == is_valid_date(year as int, month as int, day as int),
{
    NaiveDate::from_ymd_opt(year, month, day).is_some()
}

/// `chrono::NaiveDate::weekday` on the date that
/// `chrono::NaiveDate::from_ymd_opt` makes of a day that exists: the
/// weekday of that day in the proleptic Gregorian calendar.
#[verifier::external_body]
fn weekday_on(year: i32, month: u32, day: u32) -> (r: Weekday)
    requires
        is_valid_date(year as int, month as int, day as int),
    ensures
        r == weekday_of(year as int, month as int, day as int),
{
    match NaiveDate::from_ymd_opt(year, month, day).unwrap().weekday() {
        chrono::Weekday::Mon => Weekday::Mon,
        chrono::Weekday::Tue => Weekday::Tue,
        chrono::Weekday::Wed => Weekday::Wed,
        chrono::Weekday::Thu => Weekday::Thu,
        chrono::Weekday::Fri => Weekday::Fri,
        chrono::Weekday::Sat => Weekday::Sat,
        chrono::Weekday::Sun => Weekday::Sun,
    }
}

/// The running number of the day in which an instant lies at the
/// meridian of Greenwich.  An instant is given in seconds since the start
/// of 1970, whose first day has the number 719163.
pub open spec fn day_of_timestamp(seconds: int) -> int {
    seconds / 86_400 + 719_163
}

/// The running number of the day in which an instant lies at an offset of
/// so many seconds east of Greenwich.
pub open spec fn day_of_instant(seconds: int, offset: int) -> int {
    day_of_timestamp(seconds + offset)
}

/// The running number of the first day that a date can be.
pub open spec fn first_day() -> int {
    day_number(MIN_YEAR as int, 1, 1)
}

/// The running number of the last day that a date can be.
pub open spec fn last_day() -> int {
    day_number(MAX_YEAR as int, 12, 31)
}

/// `date` is the day in which the instant lies at the offset of the menus,
/// or nothing where that day is none that a date can be.
pub open spec fn is_date_of_instant(seconds: int, date: Option<CalendarDay>) -> bool {
    let number = day_of_instant(seconds, UTC_OFFSET_SECONDS as int);
    match date {
        Some(d) => {
            &&& is_valid_date(d.year, d.month, d.day)
            &&& day_number(d.year, d.month, d.day) == number
        },
        None => !(first_day() <= number <= last_day()),
    }
}

/// `chrono::DateTime::from_timestamp` with no nanoseconds, cut down to
/// its date by `chrono::DateTime::date_naive`: year, month and day of the
/// day in which the instant lies at Greenwich, or nothing where chrono
/// cannot hold that day.
#[verifier::external_body]
fn date_of_timestamp(seconds: i64) -> (r: Option<(i32, u32, u32)>)
    ensures
        r is Some <==> first_day() <= day_of_timestamp(seconds as int) <= last_day(),
        r matches Some((year, month, day)) ==> {
            &&& is_valid_date(year as int, month as int, day as int)
            &&& day_number(year as int, month as int, day as int) == day_of_timestamp(
                seconds as int,
            )
        },
{
    let date = DateTime::from_timestamp(seconds, 0).map(|instant| instant.date_naive());
    date.map(|date| (date.year(), date.month(), date.day()))
}

#[verifier::external_type_specification]
#[verifier::external_body]
pub struct ExSystemTime(SystemTime);

/// `std::time::SystemTime::now`: the instant at which it is called.
#[verifier::external_body]
fn system_now() -> SystemTime {
    SystemTime::now()
}

/// `std::time::SystemTime::duration_since` the start of 1970: the whole
/// seconds and the nanoseconds by which the instant lies after it, or, as
/// the failure, those by which it lies before it.
#[verifier::external_body]
fn since_epoch(instant: &SystemTime) -> (r: Result<(u64, u32), (u64, u32)>) {
    match instant.duration_since(UNIX_EPOCH) {
        Ok(after) => Ok((after.as_secs(), after.subsec_nanos())),
        Err(e) => Err((e.duration().as_secs(), e.duration().subsec_nanos())),
    }
}

/// Two dates are equal exactly when year, month and day are.
pub proof fn lemma_date_equality(a: UnicafeDate, b: UnicafeDate)
    ensures
        (a == b) <==> (a.deep_view().year == b.deep_view().year && a.deep_view().month
            == b.deep_view().month && a.deep_view().day == b.deep_view().day),
{
}

/// The two-letter Finnish name of a weekday.
pub open spec fn finnish_weekday_text(w: Weekday) -> Seq<char> {
    match w {
        Weekday::Mon => "Ma"@,
        Weekday::Tue => "Ti"@,
        Weekday::Wed => "Ke"@,
        Weekday::Thu => "To"@,
        Weekday::Fri => "Pe"@,
        Weekday::Sat => "La"@,
        Weekday::Sun => "Su"@,
    }
}

/// The text of a date: the Finnish name of its own weekday, then day and
/// month as numerals.
pub open spec fn formatted_date(date: CalendarDay) -> Seq<char> {
    finnish_weekday_text(weekday_of(date.year, date.month, date.day)) + seq![' '] + decimal(
        date.day as nat,
    ) + seq!['.'] + decimal(date.month as nat)
}

/// The two-letter Finnish name of a weekday.
pub fn finnish_weekday(w: Weekday) -> (r: &'static str)
    ensures
        r@ == finnish_weekday_text(w),
{
    match w {
        Weekday::Mon => "Ma",
        Weekday::Tue => "Ti",
        Weekday::Wed => "Ke",
        Weekday::Thu => "To",
        Weekday::Fri => "Pe",
        Weekday::Sat => "La",
        Weekday::Sun => "Su",
    }
}

/// The whole seconds, rounded down, by which an instant lies after the
/// start of 1970, given by how much it lies after or before that start.
pub open spec fn seconds_since_1970(offset: Result<(u64, u32), (u64, u32)>) -> int {
    match offset {
        Ok((seconds, _)) => seconds as int,
        Err((seconds, nanos)) => if nanos == 0 {
            -(seconds as int)
        } else {
            -(seconds as int) - 1
        },
    }
}

/// The whole seconds since the start of 1970 in which an instant lies,
/// given by how much it lies after or before that start; nothing where
/// they do not fit into 64 bits.
pub fn whole_seconds(offset: Result<(u64, u32), (u64, u32)>) -> (r: Option<i64>)
    ensures
        r == if i64::MIN <= seconds_since_1970(offset) <= i64::MAX {
            Some(seconds_since_1970(offset) as i64)
        } else {
            None
        },
{
    match offset {
        Ok((seconds, _)) => {
            if seconds <= i64::MAX as u64 {
                Some(seconds as i64)
            } else {
                None
            }
        },
        Err((seconds, nanos)) => {
            if seconds <= i64::MAX as u64 {
                let before = -(seconds as i64);
                if nanos == 0 {
                    Some(before)
                } else {
                    Some(before - 1)
                }
            } else if seconds - 1 == i64::MAX as u64 && nanos == 0 {
                Some(i64::MIN)
            } else {
                None
            }
        },
    }
}

/// The numbers of the first and of the last day.
proof fn lemma_calendar_ends()
    ensures
        first_day() == -95_746_129,
        last_day() == 95_745_399,
{
    reveal_with_fuel(days_before_month, 13);
}

/// An instant has one date, and two instants that lie in the same day at
/// the offset of the menus have the same date.
pub proof fn lemma_one_date_a_day(
    first: int,
    second: int,
    a: Option<CalendarDay>,
    b: Option<CalendarDay>,
)
    requires
        is_date_of_instant(first, a),
        is_date_of_instant(second, b),
        day_of_instant(first, UTC_OFFSET_SECONDS as int) == day_of_instant(
            second,
            UTC_OFFSET_SECONDS as int,
        ),
    ensures
        a == b,
{
    lemma_calendar_ends();
    match (a, b) {
        (Some(x), Some(y)) => {
            lemma_day_number_unique(x, y);
        },
        (Some(x), None) => {
            lemma_day_in_calendar(x);
        },
        (None, Some(y)) => {
            lemma_day_in_calendar(y);
        },
        (None, None) => {},
    }
}

/// The number of a day that a date can be lies between those of the first
/// and of the last such day.
pub proof fn lemma_day_in_calendar(date: CalendarDay)
    requires
        is_valid_date(date.year, date.month, date.day),
    ensures
        first_day() <= day_number(date.year, date.month, date.day) <= last_day(),
{
    lemma_years_in_order(MIN_YEAR as int, date.year);
    lemma_years_in_order(date.year, MAX_YEAR as int);
    lemma_day_in_year(date.year, date.month, date.day);
    lemma_year_length(date.year);
    lemma_years_in_order(date.year + 1, MAX_YEAR as int + 1);
    lemma_year_length(MAX_YEAR as int);
    reveal_with_fuel(days_before_month, 14);
}

/// The date of an instant at the offset of the menus: the day in which
/// the instant, given in seconds since the start of 1970, lies two hours
/// east of Greenwich.  There is none where that day lies outside the
/// years that a date can lie in.
pub fn date_of_instant(seconds: i64) -> (r: Option<UnicafeDate>)
    ensures
        is_date_of_instant(seconds as int, r.deep_view()),
{
    proof {
        lemma_calendar_ends();
    }
    match seconds.checked_add(UTC_OFFSET_SECONDS as i64) {
        None => None,
        Some(local) => match date_of_timestamp(local) {
            Some((year, month, day)) => Some(UnicafeDate { year, month, day }),
            None => None,
        },
    }
}

/// Today's date at the offset of the menus, whatever the time zone of the
/// machine: the date of the instant that the clock shows.  There is none
/// where the clock stands outside the years that a date can lie in.
pub fn unicafe_today() -> (today: Option<UnicafeDate>)
    ensures
        exists|seconds: int| #[trigger] is_date_of_instant(seconds, today.deep_view()),
{
    let now = system_now();
    match whole_seconds(since_epoch(&now)) {
        Some(seconds) => {
            let today = date_of_instant(seconds);
            assert(is_date_of_instant(seconds as int, today.deep_view()));
            today
        },
        None => {
            let today: Option<UnicafeDate> = None;
            proof {
                lemma_calendar_ends();
                assert(today.deep_view() is None);
                assert(is_date_of_instant(i64::MAX as int, today.deep_view()));
            }
            today
        },
    }
}

impl UnicafeDate {
    #[verifier::type_invariant]
    spec fn exists_in_calendar(self) -> bool {
        is_valid_date(self.year as int, self.month as int, self.day as int)
    }

    /// The date of the given year, month and day, where that day exists.
    pub fn from_ymd(year: i32, month: u32, day: u32) -> (r: Option<UnicafeDate>)
        ensures
            r is Some <==> is_valid_date(year as int, month as int, day as int),
            r matches Some(date) ==> date.deep_view() == (CalendarDay {
                year: year as int,
                month: month as int,
                day: day as int,
            }),
    {
        if date_exists(year, month, day) {
            Some(UnicafeDate { year, month, day })
        } else {
            None
        }
    }

    /// The year of the date.
    pub fn year(&self) -> (r: i32)
        ensures
            r == self.deep_view().year,
            is_valid_date(self.deep_view().year, self.deep_view().month, self.deep_view().day),
    {
        proof {
            use_type_invariant(self);
        }
        self.year
    }

    /// The month of the date, from 1 to 12.
    pub fn month(&self) -> (r: u32)
        ensures
            r == self.deep_view().month,
            1 <= r <= 12,
    {
        proof {
            use_type_invariant(self);
        }
        self.month
    }

    /// The day of the month, from 1.
    pub fn day(&self) -> (r: u32)
        ensures
            r == self.deep_view().day,
            1 <= r <= 31,
    {
        proof {
            use_type_invariant(self);
        }
        self.day
    }

    /// Tells whether two dates are the same day.
    pub fn same_day(&self, other: &UnicafeDate) -> (r: bool)
        ensures
            r == (self.deep_view() == other.deep_view()),
            r == (*self == *other),
    {
        *self == *other
    }

    /// The weekday that the date falls on.
    pub fn weekday(&self) -> (r: Weekday)
        ensures
            r == weekday_of(self.deep_view().year, self.deep_view().month, self.deep_view().day),
    {
        proof {
            use_type_invariant(self);
        }
        weekday_on(self.year, self.month, self.day)
    }

    /// The text of the date, such as `Ma 3.11`.
    pub fn format(&self) -> (r: String)
        ensures
            r@ == formatted_date(self.deep_view()),
    {
        let mut out = String::from_str(finnish_weekday(self.weekday()));
        out.append(" ");
        push_decimal(&mut out, self.day as u64);
        out.append(".");
        push_decimal(&mut out, self.month as u64);
        proof {
            reveal_strlit(" ");
            reveal_strlit(".");
            assert(" "@ =~= seq![' ']);
            assert("."@ =~= seq!['.']);
        }
        out
    }
}

/// How many letters stand at the start of a text.
pub open spec fn leading_letters(text: Seq<char>) -> nat
    decreases text.len(),
{
    if text.len() > 0 && is_letter(text[0]) {
        1 + leading_letters(text.drop_first())
    } else {
        0
    }
}

/// Day and month of a text made of a numeral of one or two digits, a full
/// stop and another such numeral.
pub open spec fn day_and_month(text: Seq<char>) -> Option<(nat, nat)> {
    if text.len() >= 2 && text[1] == '.' {
        match (short_number(text.take(1)), short_number(text.skip(2))) {
            (Some(day), Some(month)) => Some((day, month)),
            _ => None,
        }
    } else if text.len() >= 3 && text[2] == '.' {
        match (short_number(text.take(2)), short_number(text.skip(3))) {
            (Some(day), Some(month)) => Some((day, month)),
            _ => None,
        }
    } else {
        None
    }
}

/// Day and month of a date text: a word of one or more letters, one space,
/// the day, a full stop and the month, and nothing else.  The word is not
/// looked at any further.
pub open spec fn date_fields(text: Seq<char>) -> Option<(nat, nat)> {
    let word = leading_letters(text);
    if 1 <= word && word < text.len() && text[word as int] == ' ' {
        day_and_month(text.skip(word as int + 1))
    } else {
        None
    }
}

/// What a date text decodes to when the year is `year`.
pub open spec fn decoded_date(text: Seq<char>, year: int) -> Result<CalendarDay, DecoderFailure> {
    match date_fields(text) {
        None => Err(DecoderFailure::ApplicationError("no date found"@)),
        Some((day, month)) => if !(1 <= month <= 12) {
            Err(DecoderFailure::ApplicationError("invalid month"@))
        } else if !is_valid_date(year, month as int, day as int) {
            Err(DecoderFailure::ApplicationError("invalid day"@))
        } else {
            Ok(CalendarDay { year, month: month as int, day: day as int })
        },
    }
}

/// The letters at the start of a text end where the first other character
/// stands.
pub proof fn lemma_leading_letters(text: Seq<char>, n: int)
    requires
        0 <= n <= text.len(),
        forall|i: int| 0 <= i < n ==> is_letter(#[trigger] text[i]),
        n == text.len() || !is_letter(text[n]),
    ensures
        leading_letters(text) == n,
    decreases n,
{
    if n > 0 {
        let rest = text.drop_first();
        assert forall|i: int| 0 <= i < n - 1 implies is_letter(#[trigger] rest[i]) by {
            assert(rest[i] == text[i + 1]);
        }
        lemma_leading_letters(rest, n - 1);
    }
}

/// A date text is a word, a space, the day, a full stop and the month.
pub open spec fn date_text(word: Seq<char>, day: nat, month: nat) -> Seq<char> {
    word + seq![' '] + decimal(day) + seq!['.'] + decimal(month)
}

/// Reading gives back what was written: whatever word of letters stands in
/// front, the text of a day and a month that exist in `year` decodes to
/// that day of `year`, and the date is written with the name of its own
/// weekday, its day and its month.
pub proof fn lemma_date_round_trip(word: Seq<char>, year: int, month: int, day: int)
    requires
        word.len() >= 1,
        forall|i: int| 0 <= i < word.len() ==> is_letter(#[trigger] word[i]),
        is_valid_date(year, month, day),
    ensures
        date_fields(date_text(word, day as nat, month as nat)) == Some((day as nat, month as nat)),
        decoded_date(date_text(word, day as nat, month as nat), year) == Ok::<
            CalendarDay,
            DecoderFailure,
        >(CalendarDay { year, month, day }),
        formatted_date(CalendarDay { year, month, day }) == date_text(
            finnish_weekday_text(weekday_of(year, month, day)),
            day as nat,
            month as nat,
        ),
{
    let d = decimal(day as nat);
    let m = decimal(month as nat);
    let text = date_text(word, day as nat, month as nat);
    let w = word.len() as int;
    lemma_short_number_of_decimal(day as nat);
    lemma_short_number_of_decimal(month as nat);
    lemma_decimal_digits(day as nat);
    assert forall|i: int| 0 <= i < w implies is_letter(#[trigger] text[i]) by {
        assert(text[i] == word[i]);
    }
    assert(text[w] == ' ');
    lemma_leading_letters(text, w);
    let rest = text.skip(w + 1);
    assert(rest =~= d + seq!['.'] + m);
    if d.len() == 1 {
        assert(rest[1] == '.');
        assert(rest.take(1) =~= d);
        assert(rest.skip(2) =~= m);
    } else {
        assert(rest[1] == d[1]);
        assert(rest[2] == '.');
        assert(rest.take(2) =~= d);
        assert(rest.skip(3) =~= m);
    }
}

/// What is written of a date that exists reads as that date again, in
/// the year of the date.
pub proof fn lemma_format_then_decode(year: int, month: int, day: int)
    requires
        is_valid_date(year, month, day),
    ensures
        decoded_date(formatted_date(CalendarDay { year, month, day }), year) == Ok::<
            CalendarDay,
            DecoderFailure,
        >(CalendarDay { year, month, day }),
{
    reveal_strlit("Ma");
    reveal_strlit("Ti");
    reveal_strlit("Ke");
    reveal_strlit("To");
    reveal_strlit("Pe");
    reveal_strlit("La");
    reveal_strlit("Su");
    let word = finnish_weekday_text(weekday_of(year, month, day));
    assert(word.len() == 2);
    assert(is_letter(word[0]) && is_letter(word[1]));
    lemma_date_round_trip(word, year, month, day);
}

/// A date is read in full or not at all: a text without a full stop is
/// no date, a month outside 1 to 12 and a day that the month lacks in
/// `year` are refused, each with its own message, and whatever is read
/// is a day that exists in `year`.
pub proof fn lemma_date_decode_rejects(text: Seq<char>, year: int)
    ensures
        !text.contains('.') ==> decoded_date(text, year) == Err::<CalendarDay, DecoderFailure>(
            DecoderFailure::ApplicationError("no date found"@),
        ),
        date_fields(text) matches Some((day, month)) ==> {
            &&& !(1 <= month <= 12) ==> decoded_date(text, year) == Err::<
                CalendarDay,
                DecoderFailure,
            >(DecoderFailure::ApplicationError("invalid month"@))
            &&& 1 <= month <= 12 && !is_valid_date(year, month as int, day as int)
                ==> decoded_date(text, year) == Err::<CalendarDay, DecoderFailure>(
                DecoderFailure::ApplicationError("invalid day"@),
            )
        },
        decoded_date(text, year) matches Ok(date) ==> {
            &&& is_valid_date(date.year, date.month, date.day)
            &&& date.year == year
            &&& date_fields(text) == Some((date.day as nat, date.month as nat))
        },
{
    if date_fields(text) is Some {
        let w = leading_letters(text) as int;
        let rest = text.skip(w + 1);
        if rest.len() >= 2 && rest[1] == '.' {
            assert(text[w + 2] == '.');
        } else {
            assert(text[w + 3] == '.');
        }
    }
}

/// The characters of a text.
fn chars_of(text: &str) -> (r: Vec<char>)
    ensures
        r@ == text@,
{
    let mut out: Vec<char> = Vec::new();
    for c in it: text.chars()
        invariant
            out@ == it.seq().take(it.index() as int),
            it.seq() == text@,
    {
        out.push(c);
    }
    out
}

/// The number that the characters from `from` up to `to` stand for, where
/// they are one or two digits.
fn read_short_number(chars: &Vec<char>, from: usize, to: usize) -> (r: Option<u32>)
    requires
        from <= to <= chars.len(),
    ensures
        r is Some <==> short_number(chars@.subrange(from as int, to as int)) is Some,
        r matches Some(n) ==> Some(n as nat) == short_number(
            chars@.subrange(from as int, to as int),
        ),
{
    let ghost digits = chars@.subrange(from as int, to as int);
    if to - from == 1 {
        assert(digits[0] == chars@[from as int]);
        digit(chars[from])
    } else if to - from == 2 {
        assert(digits[0] == chars@[from as int]);
        assert(digits[1] == chars@[from + 1]);
        match (digit(chars[from]), digit(chars[from + 1])) {
            (Some(tens), Some(ones)) => Some(10 * tens + ones),
            _ => None,
        }
    } else {
        None
    }
}

/// Day and month of a date text.
fn read_date_fields(text: &str) -> (r: Option<(u32, u32)>)
    ensures
        r is Some <==> date_fields(text@) is Some,
        r matches Some((day, month)) ==> date_fields(text@) == Some((day as nat, month as nat)),
{
    let chars = chars_of(text);
    let n = chars.len();
    let mut word: usize = 0;
    while word < n && letter(chars[word])
        invariant
            n == chars.len(),
            word <= n,
            forall|i: int| 0 <= i < word ==> is_letter(#[trigger] chars@[i]),
        decreases n - word,
    {
        word = word + 1;
    }
    proof {
        lemma_leading_letters(chars@, word as int);
    }
    if word == 0 || word >= n || chars[word] != ' ' {
        return None;
    }
    let start = word + 1;
    let ghost rest = chars@.skip(start as int);
    let dot = if n - start >= 2 && chars[start + 1] == '.' {
        start + 1
    } else if n - start >= 3 && chars[start + 2] == '.' {
        start + 2
    } else {
        assert(rest.len() >= 2 ==> rest[1] == chars@[start + 1]);
        assert(rest.len() >= 3 ==> rest[2] == chars@[start + 2]);
        return None;
    };
    assert(rest[dot - start] == chars@[dot as int]);
    assert(rest.len() >= 2 ==> rest[1] == chars@[start + 1]);
    assert(rest.take(dot - start) =~= chars@.subrange(start as int, dot as int));
    assert(rest.skip(dot - start + 1) =~= chars@.subrange(dot + 1, n as int));
    match (read_short_number(&chars, start, dot), read_short_number(&chars, dot + 1, n)) {
        (Some(day), Some(month)) => Some((day, month)),
        _ => None,
    }
}

impl UnicafeDate {
    /// Reads a date from its text.  The text names no year: the date lies
    /// in the year of `today`.
    pub fn from_text(text: &str, today: &UnicafeDate) -> (r: Result<UnicafeDate, DecoderError>)
        ensures
            decode_result_model(r) == decoded_date(text@, today.deep_view().year),
    {
        match read_date_fields(text) {
            None => Err(DecoderError::application("no date found")),
            Some((day, month)) => {
                if month < 1 || month > 12 {
                    Err(DecoderError::application("invalid month"))
                } else if !date_exists(today.year, month, day) {
                    Err(DecoderError::application("invalid day"))
                } else {
                    Ok(UnicafeDate { year: today.year, month, day })
                }
            },
        }
    }
}

} // verus!

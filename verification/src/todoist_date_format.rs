//! The due-date codec: calendar dates written as `YYYY-MM-DD`, four digits
//! of year, two of month, two of day, nothing else.

use crate::api::TodoistAPIError;
use crate::text::digit_char;
use chrono::Datelike;
use chrono::NaiveDate;
use chrono::ParseError;
use vstd::prelude::*;

verus! {

/// `chrono::ParseError`, carried through as an opaque value.
#[verifier::external_type_specification]
#[verifier::external_body]
pub struct ExDateParseError(ParseError);

/// The format handed to chrono for both directions.
pub const FORMAT: &'static str = "%Y-%m-%d";

/// A date as three numbers.
pub struct DateView {
    pub year: int,
    pub month: int,
    pub day: int,
}

pub open spec fn is_leap_year(year: int) -> bool {
    year % 4 == 0 && (year % 100 != 0 || year % 400 == 0)
}

pub open spec fn days_in_month(year: int, month: int) -> int {
    if month == 2 {
        if is_leap_year(year) {
            29
        } else {
            28
        }
    } else if month == 4 || month == 6 || month == 9 || month == 11 {
        30
    } else {
        31
    }
}

impl DateView {
    /// A day that exists in the proleptic Gregorian calendar, in a year
    /// that four digits can hold.
    pub open spec fn is_valid(self) -> bool {
        &&& 0 <= self.year <= 9999
        &&& 1 <= self.month <= 12
        &&& 1 <= self.day <= days_in_month(self.year, self.month)
    }

    /// The date as text: `YYYY-MM-DD`, zero-padded.
    pub open spec fn rendered(self) -> Seq<char> {
        seq![
            digit_char(self.year / 1000),
            digit_char(self.year / 100 % 10),
            digit_char(self.year / 10 % 10),
            digit_char(self.year % 10),
            '-',
            digit_char(self.month / 10),
            digit_char(self.month % 10),
            '-',
            digit_char(self.day / 10),
            digit_char(self.day % 10),
        ]
    }
}

pub open spec fn is_digit(c: char) -> bool {
    '0' <= c <= '9'
}

pub open spec fn digit_value(c: char) -> int {
    c as int - 48
}

/// Ten characters: digits everywhere but at the two hyphens.
pub open spec fn well_shaped(text: Seq<char>) -> bool {
    &&& text.len() == 10
    &&& is_digit(text[0])
    &&& is_digit(text[1])
    &&& is_digit(text[2])
    &&& is_digit(text[3])
    &&& text[4] == '-'
    &&& is_digit(text[5])
    &&& is_digit(text[6])
    &&& text[7] == '-'
    &&& is_digit(text[8])
    &&& is_digit(text[9])
}

/// The three numbers that a well-shaped text spells.
pub open spec fn spelled(text: Seq<char>) -> DateView {
    DateView {
        year: 1000 * digit_value(text[0]) + 100 * digit_value(text[1]) + 10 * digit_value(text[2])
            + digit_value(text[3]),
        month: 10 * digit_value(text[5]) + digit_value(text[6]),
        day: 10 * digit_value(text[8]) + digit_value(text[9]),
    }
}

/// The date that `text` stands for, if it stands for one.
pub open spec fn parsed(text: Seq<char>) -> Option<DateView> {
    if well_shaped(text) && spelled(text).is_valid() {
        Some(spelled(text))
    } else {
        None
    }
}

/// A calendar date. Only valid dates can be built.
#[derive(Debug, Clone, Copy, PartialEq, Eq)]
pub struct CalendarDate {
    year: u16,
    month: u8,
    day: u8,
}

impl View for CalendarDate {
    type V = DateView;

    closed spec fn view(&self) -> DateView {
        DateView { year: self.year as int, month: self.month as int, day: self.day as int }
    }
}

/// `NaiveDate::from_ymd_opt`, asked only whether the day exists.
#[verifier::external_body]
fn day_exists(year: i32, month: u32, day: u32) -> (r: bool)
    requires
        0 <= year <= 9999,
    ensures
        r == (DateView { year: year as int, month: month as int, day: day as int }).is_valid(),
{
    NaiveDate::from_ymd_opt(year, month, day).is_some()
}

/// `NaiveDate::parse_from_str` on text that is already well shaped: chrono
/// reads the numbers that the digits spell and accepts them exactly when
/// that day exists.
#[verifier::external_body]
fn parse_date(text: &str, format: &str) -> (r: Result<(i32, u32, u32), ParseError>)
    requires
        format@ == FORMAT@,
        well_shaped(text@),
    ensures
        r is Ok <==> spelled(text@).is_valid(),
        r matches Ok(ymd) ==> spelled(text@) == (DateView {
            year: ymd.0 as int,
            month: ymd.1 as int,
            day: ymd.2 as int,
        }),
{
    match NaiveDate::parse_from_str(text, format) {
        Ok(date) => Ok((date.year(), date.month(), date.day())),
        Err(e) => Err(e),
    }
}

/// `NaiveDate::format` followed by `to_string`: for a year of at most four
/// digits chrono writes year, month and day zero-padded to four, two and
/// two digits, with hyphens between.
#[verifier::external_body]
fn format_date(year: i32, month: u32, day: u32, format: &str) -> (r: String)
    requires
        format@ == FORMAT@,
        (DateView { year: year as int, month: month as int, day: day as int }).is_valid(),
    ensures
        r@ == (DateView { year: year as int, month: month as int, day: day as int }).rendered(),
{
    NaiveDate::from_ymd_opt(year, month, day).unwrap().format(format).to_string()
}

impl CalendarDate {
    #[verifier::type_invariant]
    spec fn inv(self) -> bool {
        self@.is_valid()
    }

    /// The date with the given numbers, if that day exists and the year has
    /// at most four digits.
    pub fn new(year: u16, month: u8, day: u8) -> (r: Option<CalendarDate>)
        ensures
            r is Some <==> (DateView {
                year: year as int,
                month: month as int,
                day: day as int,
            }).is_valid(),
            r matches Some(date) ==> date@ == (DateView {
                year: year as int,
                month: month as int,
                day: day as int,
            }),
    {
        if year <= 9999 && day_exists(year as i32, month as u32, day as u32) {
            Some(CalendarDate { year, month, day })
        } else {
            None
        }
    }

    pub fn year(&self) -> (r: u16)
        ensures
            r == self@.year,
    {
        self.year
    }

    pub fn month(&self) -> (r: u8)
        ensures
            r == self@.month,
    {
        self.month
    }

    pub fn day(&self) -> (r: u8)
        ensures
            r == self@.day,
    {
        self.day
    }
}

/// Writes a date as `YYYY-MM-DD`.
pub fn serialize(date: &CalendarDate) -> (r: String)
    ensures
        r@ == date@.rendered(),
{
    proof {
        use_type_invariant(date);
    }
    format_date(date.year as i32, date.month as u32, date.day as u32, FORMAT)
}

fn is_digit_byte(b: u8) -> (r: bool)
    ensures
        r == (48 <= b <= 57),
{
    48 <= b && b <= 57
}

/// Whether `text` has the shape of a date.
fn has_date_shape(text: &str) -> (r: bool)
    ensures
        r == well_shaped(text@),
{
    if !text.is_ascii() {
        return false;
    }
    let bytes = text.as_bytes();
    proof {
        vstd::string::is_ascii_spec_bytes(text);
    }
    if bytes.len() != 10 {
        return false;
    }
    is_digit_byte(bytes[0]) && is_digit_byte(bytes[1]) && is_digit_byte(bytes[2]) && is_digit_byte(
        bytes[3],
    ) && bytes[4] == 45 && is_digit_byte(bytes[5]) && is_digit_byte(bytes[6]) && bytes[7] == 45
        && is_digit_byte(bytes[8]) && is_digit_byte(bytes[9])
}

/// Reads a date written as `YYYY-MM-DD`. Anything else is malformed:
/// other separators, other digit counts, a month or day that does not
/// exist, characters before or after.
pub fn deserialize(text: &str) -> (r: Result<CalendarDate, TodoistAPIError>)
    ensures
        match r {
            Ok(date) => parsed(text@) == Some(date@),
            Err(e) => e == TodoistAPIError::MalformedDate && parsed(text@) is None,
        },
{
    if !has_date_shape(text) {
        return Err(TodoistAPIError::MalformedDate);
    }
    match parse_date(text, FORMAT) {
        Ok(ymd) => Ok(CalendarDate { year: ymd.0 as u16, month: ymd.1 as u8, day: ymd.2 as u8 }),
        Err(_) => Err(TodoistAPIError::MalformedDate),
    }
}

proof fn lemma_digit_of_value(d: int)
    requires
        0 <= d <= 9,
    ensures
        is_digit(digit_char(d)),
        digit_value(digit_char(d)) == d,
{
}

proof fn lemma_value_of_digit(c: char)
    requires
        is_digit(c),
    ensures
        0 <= digit_value(c) <= 9,
        digit_char(digit_value(c)) == c,
{
}

proof fn lemma_four_digits(n: int)
    requires
        0 <= n <= 9999,
    ensures
        0 <= n / 1000 <= 9,
        0 <= n / 100 % 10 <= 9,
        0 <= n / 10 % 10 <= 9,
        0 <= n % 10 <= 9,
        1000 * (n / 1000) + 100 * (n / 100 % 10) + 10 * (n / 10 % 10) + n % 10 == n,
{
    let tens = n / 10;
    let hundreds = tens / 10;
    let thousands = hundreds / 10;
    vstd::arithmetic::div_mod::lemma_div_denominator(n, 10, 10);
    vstd::arithmetic::div_mod::lemma_div_denominator(n, 100, 10);
    assert(n / 100 == hundreds);
    assert(n / 1000 == thousands);
    assert(n == 10 * tens + n % 10);
    assert(tens == 10 * hundreds + tens % 10);
    assert(hundreds == 10 * thousands + hundreds % 10);
}

proof fn lemma_quotient_and_rest(k: int, q: int, r: int)
    requires
        k > 0,
        q >= 0,
        0 <= r < k,
    ensures
        (k * q + r) / k == q,
        (k * q + r) % k == r,
{
    assert(k * q == q * k) by (nonlinear_arith);
    vstd::arithmetic::div_mod::lemma_fundamental_div_mod_converse(k * q + r, k, q, r);
}

proof fn lemma_digits_of_four(a: int, b: int, c: int, d: int)
    requires
        0 <= a <= 9,
        0 <= b <= 9,
        0 <= c <= 9,
        0 <= d <= 9,
    ensures
        ({
            let n = 1000 * a + 100 * b + 10 * c + d;
            &&& 0 <= n <= 9999
            &&& n / 1000 == a
            &&& n / 100 % 10 == b
            &&& n / 10 % 10 == c
            &&& n % 10 == d
        }),
{
    lemma_quotient_and_rest(1000, a, 100 * b + 10 * c + d);
    lemma_quotient_and_rest(100, 10 * a + b, 10 * c + d);
    lemma_quotient_and_rest(10, a, b);
    lemma_quotient_and_rest(10, 100 * a + 10 * b + c, d);
    lemma_quotient_and_rest(10, 10 * a + b, c);
}

proof fn lemma_two_digits(n: int)
    requires
        0 <= n <= 99,
    ensures
        0 <= n / 10 <= 9,
        0 <= n % 10 <= 9,
        10 * (n / 10) + n % 10 == n,
{
}

proof fn lemma_digits_of_two(a: int, b: int)
    requires
        0 <= a <= 9,
        0 <= b <= 9,
    ensures
        (10 * a + b) / 10 == a,
        (10 * a + b) % 10 == b,
{
}

/// Reading what was written gives the date back.
pub proof fn lemma_deserialize_serialize(date: DateView)
    requires
        date.is_valid(),
    ensures
        parsed(date.rendered()) == Some(date),
{
    let text = date.rendered();
    lemma_four_digits(date.year);
    lemma_two_digits(date.month);
    lemma_two_digits(date.day);
    lemma_digit_of_value(date.year / 1000);
    lemma_digit_of_value(date.year / 100 % 10);
    lemma_digit_of_value(date.year / 10 % 10);
    lemma_digit_of_value(date.year % 10);
    lemma_digit_of_value(date.month / 10);
    lemma_digit_of_value(date.month % 10);
    lemma_digit_of_value(date.day / 10);
    lemma_digit_of_value(date.day % 10);
    assert(well_shaped(text));
    assert(spelled(text).year == date.year);
    assert(spelled(text).month == date.month);
    assert(spelled(text).day == date.day);
}

/// Only one text stands for a date: the one that writing it gives.
pub proof fn lemma_serialize_deserialize(text: Seq<char>)
    requires
        parsed(text) is Some,
    ensures
        parsed(text)->Some_0.rendered() == text,
{
    let date = spelled(text);
    lemma_value_of_digit(text[0]);
    lemma_value_of_digit(text[1]);
    lemma_value_of_digit(text[2]);
    lemma_value_of_digit(text[3]);
    lemma_value_of_digit(text[5]);
    lemma_value_of_digit(text[6]);
    lemma_value_of_digit(text[8]);
    lemma_value_of_digit(text[9]);
    lemma_digits_of_four(
        digit_value(text[0]),
        digit_value(text[1]),
        digit_value(text[2]),
        digit_value(text[3]),
    );
    lemma_digits_of_two(digit_value(text[5]), digit_value(text[6]));
    lemma_digits_of_two(digit_value(text[8]), digit_value(text[9]));
    assert(date.rendered() =~= text);
}

} // verus!

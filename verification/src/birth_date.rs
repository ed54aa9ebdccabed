//! The date of birth that a PESEL number encodes.

use vstd::prelude::*;
use vstd::string::StringExecFns;
use crate::calendar::{is_calendar_date, year_in_range};
use crate::digits::push_two_digits;
use crate::layout::digit_char;

verus! {

/// The text of a date as year, month and day, with four, two and two digits
/// and a hyphen between them.
pub open spec fn iso_text(year: int, month: int, day: int) -> Seq<char> {
    seq![
        digit_char(year / 1000),
        digit_char((year / 100) % 10),
        digit_char((year / 10) % 10),
        digit_char(year % 10),
        '-',
        digit_char(month / 10),
        digit_char(month % 10),
        '-',
        digit_char(day / 10),
        digit_char(day % 10),
    ]
}

/// A day of the calendar in a year from 1800 to 2299.
#[derive(Debug, PartialEq, Eq, Clone, Copy, Structural)]
pub struct BirthDate {
    year: u16,
    month: u8,
    day: u8,
}

impl BirthDate {
    /// The date is a day of the calendar, in a year that a PESEL number can
    /// encode.
    #[verifier::type_invariant]
    closed spec fn well_formed(&self) -> bool {
        &&& year_in_range(self.year as int)
        &&& is_calendar_date(self.year as int, self.month as int, self.day as int)
    }

    /// The year of the date.
    pub closed spec fn spec_year(&self) -> u16 {
        self.year
    }

    /// The month of the date.
    pub closed spec fn spec_month(&self) -> u8 {
        self.month
    }

    /// The day of the date.
    pub closed spec fn spec_day(&self) -> u8 {
        self.day
    }

    /// The date of the given year, month and day.
    pub(crate) fn new(year: u16, month: u8, day: u8) -> (date: BirthDate)
        requires
            year_in_range(year as int),
            is_calendar_date(year as int, month as int, day as int),
        ensures
            date.year() == year,
            date.month() == month,
            date.day() == day,
    {
        BirthDate { year, month, day }
    }

    /// The year, from 1800 to 2299.
    #[verifier::when_used_as_spec(spec_year)]
    pub fn year(&self) -> (year: u16)
        ensures
            year == self.year(),
            year_in_range(year as int),
    {
        proof {
            use_type_invariant(self);
        }
        self.year
    }

    /// The month, from 1 to 12.
    #[verifier::when_used_as_spec(spec_month)]
    pub fn month(&self) -> (month: u8)
        ensures
            month == self.month(),
            1 <= month <= 12,
    {
        proof {
            use_type_invariant(self);
        }
        self.month
    }

    /// The day of the month, a day that the month has in that year.
    #[verifier::when_used_as_spec(spec_day)]
    pub fn day(&self) -> (day: u8)
        ensures
            day == self.day(),
            is_calendar_date(self.year() as int, self.month() as int, day as int),
    {
        proof {
            use_type_invariant(self);
        }
        self.day
    }

    /// The date as text, in the form `YYYY-MM-DD`.
    pub fn to_string(&self) -> (text: String)
        ensures
            text@ == iso_text(self.year() as int, self.month() as int, self.day() as int),
    {
        proof {
            use_type_invariant(self);
        }
        let mut text = String::new();
        push_two_digits(&mut text, (self.year / 100) as u8);
        push_two_digits(&mut text, (self.year % 100) as u8);
        text.append("-");
        push_two_digits(&mut text, self.month);
        text.append("-");
        push_two_digits(&mut text, self.day);
        proof {
            reveal_strlit("-");
            assert("-"@ =~= seq!['-']);
            assert(text@ =~= iso_text(self.year as int, self.month as int, self.day as int));
        }
        text
    }
}

} // verus!

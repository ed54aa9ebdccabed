//! The layout of a PESEL number, as a mathematical model over its text.
//!
//! The eleven characters are decimal digits. Positions 0-1 hold the last two
//! digits of the year of birth, 2-3 the month with the century added in steps
//! of 20, 4-5 the day, 6-8 a serial part without meaning of its own, 9 the
//! sex digit (odd for men, even for women) and 10 the checksum digit.

use vstd::prelude::*;
use vstd::utf8::{encode_utf8, is_ascii_chars, is_ascii_chars_encode_utf8};
use crate::calendar::{is_calendar_date, year_in_range};
use crate::pesel_parsing_error::PeselError;

verus! {

/// The number of bytes, and of digits, of a PESEL number.
pub const PESEL_LENGTH: usize = 11;

/// Whether the character is one of '0' to '9'.
pub open spec fn is_digit(c: char) -> bool {
    '0' <= c <= '9'
}

/// The value of a decimal digit character.
pub open spec fn digit_value(c: char) -> int {
    c as int - '0' as int
}

/// The character of a decimal digit.
pub open spec fn digit_char(d: int) -> char {
    (d + '0' as int) as char
}

/// Whether every character of the text is a decimal digit.
pub open spec fn all_digits(text: Seq<char>) -> bool {
    forall|i: int| 0 <= i < text.len() ==> is_digit(#[trigger] text[i])
}

/// The number of bytes that the text takes in UTF-8.
pub open spec fn byte_length(text: Seq<char>) -> nat {
    encode_utf8(text).len()
}

/// The value of the digit at a position of the text.
pub open spec fn digit_at(text: Seq<char>, i: int) -> int {
    digit_value(text[i])
}

/// The value of the two digits that start at a position of the text.
pub open spec fn two_digits(text: Seq<char>, i: int) -> int {
    10 * digit_at(text, i) + digit_at(text, i + 1)
}

/// The last two digits of the year of birth.
pub open spec fn year_digits(text: Seq<char>) -> int {
    two_digits(text, 0)
}

/// The month of birth with the century added to it.
pub open spec fn month_code(text: Seq<char>) -> int {
    two_digits(text, 2)
}

/// The day of birth.
pub open spec fn day_digits(text: Seq<char>) -> int {
    two_digits(text, 4)
}

/// The digit that encodes the sex.
pub open spec fn sex_digit(text: Seq<char>) -> int {
    digit_at(text, 9)
}

/// The last digit, which a valid number has equal to its checksum.
pub open spec fn checksum_digit(text: Seq<char>) -> int {
    digit_at(text, 10)
}

/// The sum of ten digits under the weights 9, 7, 3, 1, 9, 7, 3, 1, 9, 7.
pub open spec fn weighted_sum(
    a: int,
    b: int,
    c: int,
    d: int,
    e: int,
    f: int,
    g: int,
    h: int,
    i: int,
    j: int,
) -> int {
    9 * a + 7 * b + 3 * c + d + 9 * e + 7 * f + 3 * g + h + 9 * i + 7 * j
}

/// The checksum of ten digits: their weighted sum modulo 10.
pub open spec fn checksum_of(
    a: int,
    b: int,
    c: int,
    d: int,
    e: int,
    f: int,
    g: int,
    h: int,
    i: int,
    j: int,
) -> int {
    weighted_sum(a, b, c, d, e, f, g, h, i, j) % 10
}

/// The checksum of the first ten digits of the text.
pub open spec fn text_checksum(text: Seq<char>) -> int {
    checksum_of(
        digit_at(text, 0),
        digit_at(text, 1),
        digit_at(text, 2),
        digit_at(text, 3),
        digit_at(text, 4),
        digit_at(text, 5),
        digit_at(text, 6),
        digit_at(text, 7),
        digit_at(text, 8),
        digit_at(text, 9),
    )
}

/// Whether the last digit of the text is the checksum of the ten before it.
pub open spec fn checksum_matches(text: Seq<char>) -> bool {
    text_checksum(text) == checksum_digit(text)
}

/// Whether a month code lies in one of the five bands of twelve months.
pub open spec fn in_century_band(code: int) -> bool {
    ||| 1 <= code <= 12
    ||| 21 <= code <= 32
    ||| 41 <= code <= 52
    ||| 61 <= code <= 72
    ||| 81 <= code <= 92
}

/// The first year of the century that a month code names; 0 for a code
/// outside the five bands.
pub open spec fn century_base(code: int) -> int {
    if 1 <= code <= 12 {
        1900
    } else if 21 <= code <= 32 {
        2000
    } else if 41 <= code <= 52 {
        2100
    } else if 61 <= code <= 72 {
        2200
    } else if 81 <= code <= 92 {
        1800
    } else {
        0
    }
}

/// What is added to the month to encode the century of the year; 0 for a
/// year outside 1800..=2299.
pub open spec fn century_offset(year: int) -> int {
    if 1800 <= year <= 1899 {
        80
    } else if 2000 <= year <= 2099 {
        20
    } else if 2100 <= year <= 2199 {
        40
    } else if 2200 <= year <= 2299 {
        60
    } else {
        0
    }
}

/// The year of birth that the text encodes.
pub open spec fn decoded_year(text: Seq<char>) -> int {
    year_digits(text) + century_base(month_code(text))
}

/// The month of birth, 1 to 12, that the text encodes.
pub open spec fn decoded_month(text: Seq<char>) -> int {
    month_code(text) % 20
}

/// Why the text is no PESEL number, or `None` where it is one. The checks
/// come in this order and the first that fails decides: the length in bytes,
/// the digits, the century band and the year, the day against 31, the date
/// against the calendar. The checksum is no reason to refuse a text.
pub open spec fn parse_error(text: Seq<char>) -> Option<PeselError> {
    if byte_length(text) != 11 {
        Some(PeselError::SizeError)
    } else if !all_digits(text) {
        Some(PeselError::BadFormat)
    } else if !in_century_band(month_code(text)) || !year_in_range(decoded_year(text)) {
        Some(PeselError::DoBOutOfRange)
    } else if day_digits(text) > 31 || !is_calendar_date(
        decoded_year(text),
        decoded_month(text),
        day_digits(text),
    ) {
        Some(PeselError::InvalidDoB)
    } else {
        None
    }
}

/// Whether the text is a PESEL number.
pub open spec fn is_pesel_text(text: Seq<char>) -> bool {
    parse_error(text) is None
}

/// Why no PESEL number can be made for a date, or `None` where one can:
/// first the year is held against 1800..=2299, then the date against the
/// calendar.
pub open spec fn generation_error(year: int, month: int, day: int) -> Option<PeselError> {
    if !year_in_range(year) {
        Some(PeselError::DoBOutOfRange)
    } else if !is_calendar_date(year, month, day) {
        Some(PeselError::InvalidDoB)
    } else {
        None
    }
}

/// The ten digits before the checksum of the number that encodes a date of
/// birth, with three given serial digits and a given sex digit.
pub open spec fn encoded_digits(
    year: int,
    month: int,
    day: int,
    serial1: int,
    serial2: int,
    serial3: int,
    sex: int,
) -> Seq<int> {
    let code = month + century_offset(year);
    seq![
        (year % 100) / 10,
        year % 10,
        code / 10,
        code % 10,
        day / 10,
        day % 10,
        serial1,
        serial2,
        serial3,
        sex,
    ]
}

/// The text of the ten digits followed by their checksum digit.
pub open spec fn text_of_digits(digits: Seq<int>) -> Seq<char> {
    seq![
        digit_char(digits[0]),
        digit_char(digits[1]),
        digit_char(digits[2]),
        digit_char(digits[3]),
        digit_char(digits[4]),
        digit_char(digits[5]),
        digit_char(digits[6]),
        digit_char(digits[7]),
        digit_char(digits[8]),
        digit_char(digits[9]),
        digit_char(
            checksum_of(
                digits[0],
                digits[1],
                digits[2],
                digits[3],
                digits[4],
                digits[5],
                digits[6],
                digits[7],
                digits[8],
                digits[9],
            ),
        ),
    ]
}

/// The PESEL number that encodes a date of birth, with three given serial
/// digits and a given sex digit: the ten digits and their checksum.
pub open spec fn encoded_text(
    year: int,
    month: int,
    day: int,
    serial1: int,
    serial2: int,
    serial3: int,
    sex: int,
) -> Seq<char> {
    text_of_digits(encoded_digits(year, month, day, serial1, serial2, serial3, sex))
}

/// A text of digits is ASCII, so it has as many bytes as characters.
pub proof fn lemma_digits_are_ascii(text: Seq<char>)
    requires
        all_digits(text),
    ensures
        is_ascii_chars(text),
        byte_length(text) == text.len(),
{
    assert forall|i: int| 0 <= i < text.len() implies '\0' <= #[trigger] text[i] <= '\u{7f}' by {
        assert(is_digit(text[i]));
    }
    is_ascii_chars_encode_utf8(text);
}

/// A PESEL number has eleven characters, each of them a digit.
pub proof fn lemma_pesel_text_shape(text: Seq<char>)
    requires
        is_pesel_text(text),
    ensures
        text.len() == 11,
        all_digits(text),
        forall|i: int| 0 <= i < 11 ==> 0 <= #[trigger] digit_at(text, i) <= 9,
{
    lemma_digits_are_ascii(text);
    assert forall|i: int| 0 <= i < 11 implies 0 <= #[trigger] digit_at(text, i) <= 9 by {
        assert(is_digit(text[i]));
    }
}

} // verus!

//! What holds of every PESEL number, proved over the model of its text.

use vstd::prelude::*;
use crate::calendar::year_in_range;
use crate::layout::{
    all_digits, byte_length, century_base, century_offset, checksum_matches, day_digits,
    decoded_month, decoded_year, digit_at, digit_char, digit_value, encoded_digits,
    encoded_text, generation_error, in_century_band, is_digit, is_pesel_text,
    lemma_digits_are_ascii, lemma_pesel_text_shape, month_code, parse_error, sex_digit,
    text_checksum, text_of_digits, year_digits,
};
use crate::pesel::{gender_digit_at, gender_of_digit, PeselGender};
use crate::pesel_parsing_error::PeselError;

verus! {

/// A text that is not 11 bytes long is refused for its size, whatever it
/// holds.
pub proof fn theorem_other_lengths_are_size_errors(text: Seq<char>)
    requires
        byte_length(text) != 11,
    ensures
        parse_error(text) == Some(PeselError::SizeError),
{
}

/// A text of 11 bytes that holds a character other than a decimal digit is
/// refused for its format, whatever its digits say.
pub proof fn theorem_non_digits_are_bad_format(text: Seq<char>, i: int)
    requires
        byte_length(text) == 11,
        0 <= i < text.len(),
        !is_digit(text[i]),
    ensures
        parse_error(text) == Some(PeselError::BadFormat),
{
}

/// The five places of a sex give five digits that stand for that sex, and
/// every digit is the one at some place of the sex it stands for: at half
/// its value.
pub proof fn theorem_gender_digits(gender: PeselGender, pick: int, digit: int)
    requires
        0 <= pick < 5,
        0 <= digit <= 9,
    ensures
        0 <= gender_digit_at(gender, pick) <= 9,
        gender_of_digit(gender_digit_at(gender, pick)) == gender,
        gender_digit_at(gender_of_digit(digit), digit / 2) == digit,
{
}

/// The character of a digit is a digit character, and has the digit as its
/// value.
pub proof fn lemma_digit_char(d: int)
    requires
        0 <= d <= 9,
    ensures
        is_digit(digit_char(d)),
        digit_value(digit_char(d)) == d,
{
}

/// The text made of ten digits and their checksum has eleven digits, the
/// ten given ones at their places, and a checksum digit that matches.
pub proof fn lemma_text_of_digits(digits: Seq<int>)
    requires
        digits.len() == 10,
        forall|i: int| 0 <= i < 10 ==> 0 <= #[trigger] digits[i] <= 9,
    ensures
        text_of_digits(digits).len() == 11,
        all_digits(text_of_digits(digits)),
        forall|i: int| 0 <= i < 10 ==> digit_at(text_of_digits(digits), i) == #[trigger] digits[i],
        checksum_matches(text_of_digits(digits)),
{
    let text = text_of_digits(digits);
    assert forall|i: int| 0 <= i < 10 implies digit_at(text, i) == #[trigger] digits[i] by {
        lemma_digit_char(digits[i]);
    }
    lemma_digit_char(text_checksum(text));
    assert forall|i: int| 0 <= i < text.len() implies is_digit(#[trigger] text[i]) by {
        if i < 10 {
            lemma_digit_char(digits[i]);
        }
    }
}

/// The month code of a date names the century of its year: taken apart
/// again, it gives back the year and the month.
pub proof fn lemma_century_round_trip(year: int, month: int)
    requires
        year_in_range(year),
        1 <= month <= 12,
    ensures
        in_century_band(month + century_offset(year)),
        century_base(month + century_offset(year)) + year % 100 == year,
        (month + century_offset(year)) % 20 == month,
{
}

/// The ten digits that encode a date are digits, and each pair of them
/// holds the part of the date that it stands for.
pub proof fn lemma_encoded_digits(
    year: int,
    month: int,
    day: int,
    serial1: int,
    serial2: int,
    serial3: int,
    sex: int,
)
    requires
        generation_error(year, month, day) is None,
        0 <= serial1 <= 9,
        0 <= serial2 <= 9,
        0 <= serial3 <= 9,
        0 <= sex <= 9,
    ensures
        encoded_digits(year, month, day, serial1, serial2, serial3, sex).len() == 10,
        forall|i: int|
            0 <= i < 10 ==> 0 <= #[trigger] encoded_digits(
                year,
                month,
                day,
                serial1,
                serial2,
                serial3,
                sex,
            )[i] <= 9,
        ({
            let digits = encoded_digits(year, month, day, serial1, serial2, serial3, sex);
            &&& 10 * digits[0] + digits[1] == year % 100
            &&& 10 * digits[2] + digits[3] == month + century_offset(year)
            &&& 10 * digits[4] + digits[5] == day
            &&& digits[9] == sex
        }),
{
}

/// Two digits are the quotient and the remainder, by ten, of the number
/// that they write.
pub proof fn lemma_two_digits_split(high: int, low: int)
    requires
        0 <= high <= 9,
        0 <= low <= 9,
    ensures
        (10 * high + low) / 10 == high,
        (10 * high + low) % 10 == low,
{
}

/// The year digits and the month code that a year and a month are read
/// from are the ones that this year and month are written with.
pub proof fn lemma_year_and_month_digits(y1: int, y2: int, m1: int, m2: int)
    requires
        0 <= y1 <= 9,
        0 <= y2 <= 9,
        0 <= m1 <= 9,
        0 <= m2 <= 9,
        in_century_band(10 * m1 + m2),
    ensures
        ({
            let year = 10 * y1 + y2 + century_base(10 * m1 + m2);
            let month = (10 * m1 + m2) % 20;
            let code = month + century_offset(year);
            &&& year_in_range(year)
            &&& 1 <= month <= 12
            &&& (year % 100) / 10 == y1
            &&& year % 10 == y2
            &&& code / 10 == m1
            &&& code % 10 == m2
        }),
{
    let code = 10 * m1 + m2;
    let year = 10 * y1 + y2 + century_base(code);
    assert(year % 100 == 10 * y1 + y2);
    lemma_two_digits_split(y1, y2);
    lemma_two_digits_split(m1, m2);
    assert((code % 20) + century_offset(year) == code);
}

/// Parsing and generation agree. A PESEL number holds a date for which a
/// number can be made; its first ten digits are those that encode this date
/// with its own serial digits and sex digit; and where its checksum digit
/// matches, it is that encoded text altogether.
pub proof fn theorem_pesel_text_is_encoded(text: Seq<char>)
    requires
        is_pesel_text(text),
    ensures
        generation_error(decoded_year(text), decoded_month(text), day_digits(text)) is None,
        text.subrange(0, 10) == encoded_text(
            decoded_year(text),
            decoded_month(text),
            day_digits(text),
            digit_at(text, 6),
            digit_at(text, 7),
            digit_at(text, 8),
            sex_digit(text),
        ).subrange(0, 10),
        checksum_matches(text) ==> text == encoded_text(
            decoded_year(text),
            decoded_month(text),
            day_digits(text),
            digit_at(text, 6),
            digit_at(text, 7),
            digit_at(text, 8),
            sex_digit(text),
        ),
{
    lemma_pesel_text_shape(text);
    let digits = encoded_digits(
        decoded_year(text),
        decoded_month(text),
        day_digits(text),
        digit_at(text, 6),
        digit_at(text, 7),
        digit_at(text, 8),
        sex_digit(text),
    );
    let target = text_of_digits(digits);
    assert(0 <= digit_at(text, 0) <= 9);
    assert(0 <= digit_at(text, 1) <= 9);
    assert(0 <= digit_at(text, 2) <= 9);
    assert(0 <= digit_at(text, 3) <= 9);
    assert(0 <= digit_at(text, 4) <= 9);
    assert(0 <= digit_at(text, 5) <= 9);
    assert(0 <= digit_at(text, 10) <= 9);
    lemma_year_and_month_digits(
        digit_at(text, 0),
        digit_at(text, 1),
        digit_at(text, 2),
        digit_at(text, 3),
    );
    lemma_two_digits_split(digit_at(text, 4), digit_at(text, 5));
    assert forall|k: int| 0 <= k < 10 implies #[trigger] target[k] == text[k] by {
        assert(digits[k] == digit_at(text, k));
        assert(is_digit(text[k]));
    }
    assert(text.subrange(0, 10) =~= target.subrange(0, 10));
    if checksum_matches(text) {
        assert(is_digit(text[10]));
        assert(target[10] == text[10]);
        assert(text =~= target);
    }
}

/// Generation and parsing agree. For a day of the calendar in a year from
/// 1800 to 2299, whatever the three serial digits and the sex digit, the
/// text that encodes them is a PESEL number; read back, it gives the same
/// year, month, day and sex digit, and its checksum digit matches.
pub proof fn theorem_encoded_text_parses(
    year: int,
    month: int,
    day: int,
    serial1: int,
    serial2: int,
    serial3: int,
    sex: int,
)
    requires
        generation_error(year, month, day) is None,
        0 <= serial1 <= 9,
        0 <= serial2 <= 9,
        0 <= serial3 <= 9,
        0 <= sex <= 9,
    ensures
        is_pesel_text(encoded_text(year, month, day, serial1, serial2, serial3, sex)),
        decoded_year(encoded_text(year, month, day, serial1, serial2, serial3, sex)) == year,
        decoded_month(encoded_text(year, month, day, serial1, serial2, serial3, sex)) == month,
        day_digits(encoded_text(year, month, day, serial1, serial2, serial3, sex)) == day,
        sex_digit(encoded_text(year, month, day, serial1, serial2, serial3, sex)) == sex,
        checksum_matches(encoded_text(year, month, day, serial1, serial2, serial3, sex)),
{
    let digits = encoded_digits(year, month, day, serial1, serial2, serial3, sex);
    let text = encoded_text(year, month, day, serial1, serial2, serial3, sex);
    lemma_encoded_digits(year, month, day, serial1, serial2, serial3, sex);
    lemma_text_of_digits(digits);
    lemma_digits_are_ascii(text);
    lemma_century_round_trip(year, month);
    assert(year_digits(text) == year % 100);
    assert(month_code(text) == month + century_offset(year));
    assert(day_digits(text) == day);
    assert(sex_digit(text) == sex);
}

} // verus!

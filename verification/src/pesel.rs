//! The PESEL number: parsing it from text, making one for a date of birth,
//! and reading what it encodes.

use std::str::FromStr;
use vstd::prelude::*;
use vstd::string::StringExecFns;
use rand::rngs::ThreadRng;
use crate::birth_date::{iso_text, BirthDate};
use crate::calendar::{is_valid_date, year_in_range};
use crate::digits::{digit, digit_text, only_digits, push_two_digits};
use crate::layout::{
    century_base, century_offset, checksum_digit, checksum_matches, checksum_of, day_digits,
    decoded_month, decoded_year, digit_at, encoded_text, generation_error, in_century_band, is_digit,
    is_pesel_text, lemma_digits_are_ascii, lemma_pesel_text_shape, month_code, parse_error,
    sex_digit, text_checksum, year_digits, PESEL_LENGTH,
};
use crate::pesel_parsing_error::PeselError;
use crate::random::random_below;
use crate::theorems::{lemma_encoded_digits, theorem_encoded_text_parses};

verus! {

/// The biological sex that a PESEL number encodes.
#[derive(Debug, PartialEq, Eq, Copy, Clone, Structural)]
pub enum PeselGender {
    Male,
    Female,
}

/// The sex that a sex digit stands for: odd for men, even for women.
pub open spec fn gender_of_digit(digit: int) -> PeselGender {
    if digit % 2 == 0 {
        PeselGender::Female
    } else {
        PeselGender::Male
    }
}

/// The sex digit at a place among the five that stand for a sex: twice the
/// place, and one more for men.
pub open spec fn gender_digit_at(gender: PeselGender, pick: int) -> int {
    2 * pick + if gender == PeselGender::Male {
        1int
    } else {
        0int
    }
}

impl PeselGender {
    /// The English name of the sex, in lower case.
    pub open spec fn name(self) -> Seq<char> {
        match self {
            PeselGender::Female => "female"@,
            PeselGender::Male => "male"@,
        }
    }

    /// The name of the sex, as an owned string.
    pub fn to_string(&self) -> (text: String)
        ensures
            text@ == self.name(),
    {
        match *self {
            PeselGender::Female => "female".to_owned(),
            PeselGender::Male => "male".to_owned(),
        }
    }
}

/// What [`PESEL::to_string`] writes for a PESEL number: its text, the date
/// of birth, the name of the sex and whether the checksum digit matches, each
/// on a line of its own.
pub open spec fn description(text: Seq<char>) -> Seq<char> {
    let date = iso_text(decoded_year(text), decoded_month(text), day_digits(text));
    let gender = gender_of_digit(sex_digit(text)).name();
    let valid = if checksum_matches(text) {
        "true"@
    } else {
        "false"@
    };
    "PESEL: "@ + text + "\ndate of birth: "@ + date + "\ngender: "@ + gender + "\nvalid: "@ + valid
}

/// A PESEL number that passed every check of [`PESEL::from_str`]. Whether
/// its checksum digit is right is recorded, not demanded: numbers with a
/// wrong checksum were issued and are in use.
#[derive(Debug)]
pub struct PESEL {
    /// The eleven digits as they were given.
    raw: String,
    /// The last two digits of the year of birth.
    yob: u8,
    /// The month of birth with the century added to it.
    mob: u8,
    /// The day of birth.
    dob: u8,
    /// The sex that the tenth digit encodes.
    gender: PeselGender,
    /// The last digit.
    checksum: u8,
    /// Whether the last digit is the checksum of the ten before it.
    is_valid: bool,
}

impl View for PESEL {
    type V = Seq<char>;

    /// The text of the number: its eleven digits.
    closed spec fn view(&self) -> Seq<char> {
        self.raw@
    }
}

impl PESEL {
    /// The text is a PESEL number, and each field holds what the text
    /// encodes.
    #[verifier::type_invariant]
    closed spec fn well_formed(&self) -> bool {
        &&& is_pesel_text(self.raw@)
        &&& self.yob == year_digits(self.raw@)
        &&& self.mob == month_code(self.raw@)
        &&& self.dob == day_digits(self.raw@)
        &&& self.gender == gender_of_digit(sex_digit(self.raw@))
        &&& self.checksum == checksum_digit(self.raw@)
        &&& self.is_valid == checksum_matches(self.raw@)
    }

    /// Makes a PESEL number for a date of birth and a sex. The three serial
    /// digits are drawn at random, and so is the sex digit, among the five
    /// digits that stand for the sex.
    ///
    /// A year outside 1800..=2299 is refused with `DoBOutOfRange`; after
    /// that, a date that is no day of the calendar with `InvalidDoB`. Every
    /// other date gives a number that encodes the date and the sex and has
    /// the right checksum digit.
    pub fn new(year: u16, month: u8, day: u8, pesel_gender: PeselGender) -> (result: Result<
        PESEL,
        PeselError,
    >)
        ensures
            match result {
                Ok(pesel) => {
                    &&& generation_error(year as int, month as int, day as int) is None
                    &&& is_pesel_text(pesel@)
                    &&& decoded_year(pesel@) == year
                    &&& decoded_month(pesel@) == month
                    &&& day_digits(pesel@) == day
                    &&& gender_of_digit(sex_digit(pesel@)) == pesel_gender
                    &&& checksum_matches(pesel@)
                },
                Err(error) => generation_error(year as int, month as int, day as int) == Some(
                    error,
                ),
            },
    {
        if !PESEL::is_date_in_range(year as i32) {
            return Err(PeselError::new(PeselError::DoBOutOfRange));
        }
        if !is_valid_date(year as i32, month as u32, day as u32) {
            return Err(PeselError::new(PeselError::InvalidDoB));
        }
        let mut rng = rand::thread_rng();
        let (random1, random2, random3) = PESEL::generate_random_values(&mut rng);

        let gender = PESEL::generate_gender_digit(pesel_gender, &mut rng);

        proof {
            theorem_encoded_text_parses(
                year as int,
                month as int,
                day as int,
                random1 as int,
                random2 as int,
                random3 as int,
                gender as int,
            );
        }
        PESEL::assemble(year, month, day, random1, random2, random3, gender)
    }

    /// Makes the PESEL number for a date of birth from three given serial
    /// digits and a given sex digit: what [`PESEL::new`] does once its
    /// digits are drawn.
    ///
    /// The date is checked as in [`PESEL::new`]. The number that comes out
    /// is the ten digits that encode the date, the serial digits and the
    /// sex digit, followed by their checksum.
    pub fn with_digits(
        year: u16,
        month: u8,
        day: u8,
        random1: u8,
        random2: u8,
        random3: u8,
        gender: u8,
    ) -> (result: Result<PESEL, PeselError>)
        requires
            random1 <= 9,
            random2 <= 9,
            random3 <= 9,
            gender <= 9,
        ensures
            match result {
                Ok(pesel) => {
                    &&& generation_error(year as int, month as int, day as int) is None
                    &&& pesel@ == encoded_text(
                        year as int,
                        month as int,
                        day as int,
                        random1 as int,
                        random2 as int,
                        random3 as int,
                        gender as int,
                    )
                },
                Err(error) => generation_error(year as int, month as int, day as int) == Some(
                    error,
                ),
            },
    {
        if !PESEL::is_date_in_range(year as i32) {
            return Err(PeselError::new(PeselError::DoBOutOfRange));
        }
        if !is_valid_date(year as i32, month as u32, day as u32) {
            return Err(PeselError::new(PeselError::InvalidDoB));
        }
        PESEL::assemble(year, month, day, random1, random2, random3, gender)
    }

    /// Writes the ten digits for a date that was checked, appends their
    /// checksum and reads the text back as a PESEL number.
    fn assemble(
        year: u16,
        month: u8,
        day: u8,
        random1: u8,
        random2: u8,
        random3: u8,
        gender: u8,
    ) -> (result: Result<PESEL, PeselError>)
        requires
            generation_error(year as int, month as int, day as int) is None,
            random1 <= 9,
            random2 <= 9,
            random3 <= 9,
            gender <= 9,
        ensures
            result matches Ok(pesel) && pesel@ == encoded_text(
                year as int,
                month as int,
                day as int,
                random1 as int,
                random2 as int,
                random3 as int,
                gender as int,
            ),
    {
        let pesel_year = (year % 100) as u8;
        let pesel_month = month + PESEL::calc_month_century_offset(year);

        let mut pesel_string = String::new();
        push_two_digits(&mut pesel_string, pesel_year);
        push_two_digits(&mut pesel_string, pesel_month);
        push_two_digits(&mut pesel_string, day);
        pesel_string.append(digit_text(random1));
        pesel_string.append(digit_text(random2));
        pesel_string.append(digit_text(random3));
        pesel_string.append(digit_text(gender));

        proof {
            lemma_encoded_digits(
                year as int,
                month as int,
                day as int,
                random1 as int,
                random2 as int,
                random3 as int,
                gender as int,
            );
            theorem_encoded_text_parses(
                year as int,
                month as int,
                day as int,
                random1 as int,
                random2 as int,
                random3 as int,
                gender as int,
            );
        }
        let ghost target = encoded_text(
            year as int,
            month as int,
            day as int,
            random1 as int,
            random2 as int,
            random3 as int,
            gender as int,
        );
        assert(pesel_string@ =~= target.subrange(0, 10));
        assert forall|k: int| 0 <= k < 10 implies is_digit(#[trigger] pesel_string@[k]) by {
            assert(pesel_string@[k] == target[k]);
        }
        let checksum = PESEL::calc_checksum_from_pesel_string(pesel_string.as_str());
        assert(checksum == checksum_digit(target)) by {
            assert forall|k: int| 0 <= k < 10 implies digit_at(pesel_string@, k) == digit_at(
                target,
                k,
            ) by {
                assert(pesel_string@[k] == target[k]);
            }
        }
        pesel_string.append(digit_text(checksum));
        assert(pesel_string@ =~= target);

        PESEL::from_str(pesel_string.as_str())
    }

    /// Whether the year lies in 1800..=2299, the years a PESEL number can
    /// encode.
    pub fn is_date_in_range(year: i32) -> (in_range: bool)
        ensures
            in_range == year_in_range(year as int),
    {
        !(year < 1800 || year > 2299)
    }

    /// Three digits drawn at random, for the serial part of a number.
    fn generate_random_values(rng: &mut ThreadRng) -> (values: (u8, u8, u8))
        ensures
            values.0 <= 9,
            values.1 <= 9,
            values.2 <= 9,
    {
        let random1 = random_below(rng, 10);
        let random2 = random_below(rng, 10);
        let random3 = random_below(rng, 10);
        (random1, random2, random3)
    }

    /// What is added to the month to encode the century of the year; 0 for
    /// a year outside 1800..=2299.
    pub fn calc_month_century_offset(year: u16) -> (offset: u8)
        ensures
            offset == century_offset(year as int),
    {
        if 1800 <= year && year <= 1899 {
            80
        } else if 2000 <= year && year <= 2099 {
            20
        } else if 2100 <= year && year <= 2199 {
            40
        } else if 2200 <= year && year <= 2299 {
            60
        } else {
            0
        }
    }

    /// The year of birth from the two year digits and the month code. For a
    /// month code outside the five century bands nothing is added to the
    /// year digits, so that the result lies below 1800.
    pub fn calc_year_from_pesel_encoded_month_and_year(year: u8, month: u8) -> (real_year: i32)
        ensures
            real_year == year as int + century_base(month as int),
    {
        let base: i32 = if 1 <= month && month <= 12 {
            1900
        } else if 21 <= month && month <= 32 {
            2000
        } else if 41 <= month && month <= 52 {
            2100
        } else if 61 <= month && month <= 72 {
            2200
        } else if 81 <= month && month <= 92 {
            1800
        } else {
            0
        };
        year as i32 + base
    }

    /// A sex digit drawn at random among the five that stand for the sex:
    /// the odd digits for men, the even ones for women.
    fn generate_gender_digit(pesel_gender: PeselGender, rng: &mut ThreadRng) -> (gender: u8)
        ensures
            gender <= 9,
            gender_of_digit(gender as int) == pesel_gender,
    {
        let pick = random_below(rng, 5);
        PESEL::gender_digit(pesel_gender, pick)
    }

    /// The sex digit at a given place among the five that stand for the
    /// sex: 1, 3, 5, 7, 9 for men and 0, 2, 4, 6, 8 for women, counted
    /// from place 0.
    pub fn gender_digit(pesel_gender: PeselGender, pick: u8) -> (gender: u8)
        requires
            pick < 5,
        ensures
            gender == gender_digit_at(pesel_gender, pick as int),
    {
        let women: [u8; 5] = [0, 2, 4, 6, 8];
        let men: [u8; 5] = [1, 3, 5, 7, 9];
        match pesel_gender {
            PeselGender::Male => men[pick as usize],
            PeselGender::Female => women[pick as usize],
        }
    }

    /// The checksum of the first ten digits of a PESEL number.
    pub fn calc_checksum_from_pesel_string(pesel_string: &str) -> (checksum: u8)
        requires
            pesel_string@.len() >= 10,
            forall|k: int| 0 <= k < 10 ==> is_digit(#[trigger] pesel_string@[k]),
        ensures
            checksum == text_checksum(pesel_string@),
            checksum <= 9,
    {
        let (a, b, c, d, e, f, g, h, i, j) = PESEL::extract_pesel_factors(pesel_string);
        PESEL::calc_checksum(a, b, c, d, e, f, g, h, i, j)
    }

    /// The checksum of ten digits: their sum under the weights 9, 7, 3, 1,
    /// 9, 7, 3, 1, 9, 7, modulo 10. The sum is taken in 16 bits: with every
    /// argument at its largest it is 56 * 255, which fits.
    pub fn calc_checksum(
        a: u8,
        b: u8,
        c: u8,
        d: u8,
        e: u8,
        f: u8,
        g: u8,
        h: u8,
        i: u8,
        j: u8,
    ) -> (checksum: u8)
        ensures
            checksum == checksum_of(
                a as int,
                b as int,
                c as int,
                d as int,
                e as int,
                f as int,
                g as int,
                h as int,
                i as int,
                j as int,
            ),
            checksum <= 9,
    {
        let sum: u16 = 9 * (a as u16) + 7 * (b as u16) + 3 * (c as u16) + (d as u16)
            + 9 * (e as u16) + 7 * (f as u16) + 3 * (g as u16) + (h as u16)
            + 9 * (i as u16) + 7 * (j as u16);
        (sum % 10) as u8
    }

    /// The first ten digits of a PESEL number, in their order.
    pub fn extract_pesel_factors(pesel_string: &str) -> (factors: (
        u8,
        u8,
        u8,
        u8,
        u8,
        u8,
        u8,
        u8,
        u8,
        u8,
    ))
        requires
            pesel_string@.len() >= 10,
            forall|k: int| 0 <= k < 10 ==> is_digit(#[trigger] pesel_string@[k]),
        ensures
            factors.0 == digit_at(pesel_string@, 0),
            factors.1 == digit_at(pesel_string@, 1),
            factors.2 == digit_at(pesel_string@, 2),
            factors.3 == digit_at(pesel_string@, 3),
            factors.4 == digit_at(pesel_string@, 4),
            factors.5 == digit_at(pesel_string@, 5),
            factors.6 == digit_at(pesel_string@, 6),
            factors.7 == digit_at(pesel_string@, 7),
            factors.8 == digit_at(pesel_string@, 8),
            factors.9 == digit_at(pesel_string@, 9),
    {
        let a = digit(pesel_string, 0);
        let b = digit(pesel_string, 1);
        let c = digit(pesel_string, 2);
        let d = digit(pesel_string, 3);
        let e = digit(pesel_string, 4);
        let f = digit(pesel_string, 5);
        let g = digit(pesel_string, 6);
        let h = digit(pesel_string, 7);
        let i = digit(pesel_string, 8);
        let j = digit(pesel_string, 9);
        (a, b, c, d, e, f, g, h, i, j)
    }

    /// Whether the last digit is the checksum of the ten before it: their
    /// sum under the weights 9, 7, 3, 1, 9, 7, 3, 1, 9, 7, modulo 10. Worked
    /// out once, when the number was read.
    pub fn is_valid(&self) -> (valid: bool)
        ensures
            valid == checksum_matches(self@),
    {
        proof {
            use_type_invariant(self);
        }
        self.is_valid
    }

    /// The sex that the number encodes: male for an odd tenth digit, female
    /// for an even one.
    pub fn gender(&self) -> (gender: PeselGender)
        ensures
            gender == gender_of_digit(sex_digit(self@)),
    {
        proof {
            use_type_invariant(self);
        }
        self.gender
    }

    /// Whether the number encodes the male sex.
    pub fn is_male(&self) -> (male: bool)
        ensures
            male == (gender_of_digit(sex_digit(self@)) == PeselGender::Male),
    {
        self.gender() == PeselGender::Male
    }

    /// Whether the number encodes the female sex.
    pub fn is_female(&self) -> (female: bool)
        ensures
            female == (gender_of_digit(sex_digit(self@)) == PeselGender::Female),
    {
        self.gender() == PeselGender::Female
    }

    /// The date of birth that the number encodes: the year digits with the
    /// century of the month code, the month code modulo 20, and the day.
    pub fn date_of_birth(&self) -> (date: BirthDate)
        ensures
            date.year() == decoded_year(self@),
            date.month() == decoded_month(self@),
            date.day() == day_digits(self@),
    {
        proof {
            use_type_invariant(self);
            lemma_pesel_text_shape(self@);
        }
        let year = PESEL::calc_year_from_pesel_encoded_month_and_year(self.yob, self.mob);
        BirthDate::new(year as u16, self.mob % 20, self.dob)
    }

    /// The name of the sex that the number encodes, `male` or `female`.
    pub fn gender_name(&self) -> (name: String)
        ensures
            name@ == gender_of_digit(sex_digit(self@)).name(),
    {
        self.gender().to_string()
    }

    /// The eleven digits of the number, as they were given.
    pub fn pesel_number(&self) -> (number: String)
        ensures
            number@ == self@,
            is_pesel_text(self@),
    {
        proof {
            use_type_invariant(self);
        }
        self.raw.clone()
    }

    /// The last two digits of the year of birth.
    pub fn yob(&self) -> (yob: u8)
        ensures
            yob == year_digits(self@),
            yob <= 99,
    {
        proof {
            use_type_invariant(self);
            lemma_pesel_text_shape(self@);
        }
        self.yob
    }

    /// The month of birth with the century added to it: the month itself
    /// for the years from 1900, 20 more for those from 2000, 40 more from
    /// 2100, 60 more from 2200, and 80 more for those from 1800.
    pub fn mob(&self) -> (mob: u8)
        ensures
            mob == month_code(self@),
            in_century_band(mob as int),
    {
        proof {
            use_type_invariant(self);
        }
        self.mob
    }

    /// The day of birth.
    pub fn dob(&self) -> (dob: u8)
        ensures
            dob == day_digits(self@),
            1 <= dob <= 31,
    {
        proof {
            use_type_invariant(self);
        }
        self.dob
    }

    /// The number in words, on four lines: its digits, the date of birth,
    /// the name of the sex, and whether the checksum digit matches.
    pub fn to_string(&self) -> (text: String)
        ensures
            text@ == description(self@),
    {
        let mut text = "PESEL: ".to_owned();
        text.append(self.raw.as_str());
        text.append("\ndate of birth: ");
        text.append(self.date_of_birth().to_string().as_str());
        text.append("\ngender: ");
        text.append(self.gender_name().as_str());
        text.append("\nvalid: ");
        if self.is_valid() {
            text.append("true");
        } else {
            text.append("false");
        }
        text
    }
}

impl FromStr for PESEL {
    type Err = PeselError;

    /// Reads a PESEL number from its text.
    ///
    /// The text is refused for the first of these that holds: it is not 11
    /// bytes long; it holds a character that is no ASCII digit; its month
    /// digits name no century, or the year lies outside 1800..=2299; its day
    /// is above 31, or the date is no day of the calendar. A wrong checksum
    /// digit is no reason to refuse it: see [`PESEL::is_valid`].
    fn from_str(s: &str) -> (result: Result<PESEL, PeselError>)
        ensures
            match result {
                Ok(pesel) => parse_error(s@) is None && pesel@ == s@,
                Err(error) => parse_error(s@) == Some(error),
            },
    {
        if s.as_bytes().len() != PESEL_LENGTH {
            return Err(PeselError::new(PeselError::SizeError));
        }
        if !only_digits(s) {
            return Err(PeselError::new(PeselError::BadFormat));
        }
        proof {
            lemma_digits_are_ascii(s@);
        }
        let checksum = digit(s, 10);
        let gender = digit(s, 9);

        let yob = 10 * digit(s, 0) + digit(s, 1);
        let mob = 10 * digit(s, 2) + digit(s, 3);
        let dob = 10 * digit(s, 4) + digit(s, 5);

        let real_year = PESEL::calc_year_from_pesel_encoded_month_and_year(yob, mob);
        if !PESEL::is_date_in_range(real_year) {
            return Err(PeselError::new(PeselError::DoBOutOfRange));
        }
        if dob > 31 || !is_valid_date(real_year, (mob % 20) as u32, dob as u32) {
            return Err(PeselError::new(PeselError::InvalidDoB));
        }
        let calculated_checksum = PESEL::calc_checksum_from_pesel_string(s);
        let pesel_is_valid = calculated_checksum == checksum;

        let real_gender = if gender % 2 == 0 {
            PeselGender::Female
        } else {
            PeselGender::Male
        };

        Ok(
            PESEL {
                raw: s.to_owned(),
                yob,
                mob,
                dob,
                gender: real_gender,
                checksum,
                is_valid: pesel_is_valid,
            },
        )
    }
}

} // verus!

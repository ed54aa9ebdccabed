use pesel::pesel::{PeselGender, PESEL};
use pesel::pesel_parsing_error::PeselError;
use std::str::FromStr;

#[test]
fn pesel_should_have_proper_century_coded() {
    let pesel = PESEL::from_str("44951201458");

    assert_eq!(true, pesel.is_err());
    assert_eq!(PeselError::new(PeselError::DoBOutOfRange), pesel.unwrap_err());
}

#[test]
fn birth_day_should_not_exceed_31() {
    let pesel = PESEL::from_str("44053201458");

    assert_eq!(true, pesel.is_err());
    assert_eq!(PeselError::new(PeselError::InvalidDoB), pesel.unwrap_err());
}

#[test]
fn birth_date_should_be_returned_as_ddmmyyyy() {
    let pesel = PESEL::from_str("44051401458").unwrap();

    let date = pesel.date_of_birth();
    let chrono_date =
        chrono::NaiveDate::from_ymd_opt(date.year() as i32, date.month() as u32, date.day() as u32)
            .unwrap();
    assert_eq!("1944-05-14", chrono_date.format("%Y-%m-%d").to_string());
    assert_eq!("1944-05-14", date.to_string());
}

#[test]
fn generated_pesel_should_print_proper_birth_date() {
    let pesel = PESEL::new(1981, 06, 27, PeselGender::Female).unwrap();

    let date = pesel.date_of_birth();
    let chrono_date =
        chrono::NaiveDate::from_ymd_opt(date.year() as i32, date.month() as u32, date.day() as u32)
            .unwrap();
    assert_eq!("1981-06-27", chrono_date.format("%Y-%m-%d").to_string());
    assert_eq!("1981-06-27", date.to_string());
}

#[test]
fn check_for_add_with_overflow() {
    // This test is very specific. It makes sure, that generated pesel, containing many high values (digits) will not result in overflow when calculating checksum
    let year = 2299;
    let month = 12;
    let day = 31;

    let pesel = PESEL::new(year, month, day, PeselGender::Male).unwrap();

    assert_eq!(true, pesel.is_valid());
}

#[test]
fn creating_pesel_from_invalid_date_should_result_in_error() {
    // 1993 for sure was not a leap year...
    let pesel = PESEL::new(1993, 02, 29, PeselGender::Female);

    assert_eq!(true, pesel.is_err());
    assert_eq!(PeselError::new(PeselError::InvalidDoB), pesel.err().unwrap());
}

#[test]
fn parsing_pesel_from_invalid_date_should_result_in_error() {
    // 1993 for sure was not a leap year...
    let pesel = PESEL::from_str("83022998790");

    assert_eq!(true, pesel.is_err());
    assert_eq!(PeselError::new(PeselError::InvalidDoB), pesel.err().unwrap());
}

#[test]
fn crating_pesel_with_32nd_day_of_month_should_result_in_error() {
    let pesel = PESEL::new(1982, 05, 32, PeselGender::Male);

    assert_eq!(true, pesel.is_err());
    assert_eq!(PeselError::new(PeselError::InvalidDoB), pesel.err().unwrap());
}

#[test]
fn parsing_pesel_day_out_of_range_should_result_in_error() {
    let pesel = PESEL::from_str("97043289891");

    assert_eq!(true, pesel.is_err());
    assert_eq!(PeselError::new(PeselError::InvalidDoB), pesel.err().unwrap());
}

#[test]
fn parsing_pesel_day_out_of_range_should_result_in_error2() {
    let pesel = PESEL::from_str("97043189891");

    assert_eq!(true, pesel.is_err());
    assert_eq!(PeselError::new(PeselError::InvalidDoB), pesel.err().unwrap());
}

#[test]
fn parsing_pesel_containing_invalid_date_should_result_in_error() {
    let pesel = PESEL::from_str("80063144451");

    assert_eq!(true, pesel.is_err());
    assert_eq!(PeselError::new(PeselError::InvalidDoB), pesel.err().unwrap());
}

#[test]
fn create_pesel_from_date_out_of_range_should_result_in_error() {
    let pesel = PESEL::new(1799, 02, 06, PeselGender::Female);

    assert_eq!(true, pesel.is_err());
    assert_eq!(PeselError::new(PeselError::DoBOutOfRange), pesel.err().unwrap());
}

#[test]
fn create_pesel_from_date_out_of_range_should_result_in_error2() {
    let pesel = PESEL::new(2799, 02, 06, PeselGender::Female);

    assert_eq!(true, pesel.is_err());
    assert_eq!(PeselError::new(PeselError::DoBOutOfRange), pesel.err().unwrap());
}

#[test]
fn parsing_pesel_from_date_out_of_range_should_result_in_error() {
    let pesel = PESEL::from_str("99940656478");

    assert_eq!(true, pesel.is_err());
    assert_eq!(PeselError::new(PeselError::DoBOutOfRange), pesel.err().unwrap());
}

#[test]
fn birth_date_parts_and_text() {
    let date = PESEL::from_str("02271409862").unwrap().date_of_birth();
    assert_eq!(2002, date.year());
    assert_eq!(7, date.month());
    assert_eq!(14, date.day());
    assert_eq!("2002-07-14", date.to_string());

    let date = PESEL::from_str("00810100000").unwrap().date_of_birth();
    assert_eq!("1800-01-01", date.to_string());
    let date = PESEL::from_str("99723100000").unwrap().date_of_birth();
    assert_eq!("2299-12-31", date.to_string());
}

#[test]
fn is_date_in_range_at_the_boundaries() {
    assert_eq!(false, PESEL::is_date_in_range(1799));
    assert_eq!(true, PESEL::is_date_in_range(1800));
    assert_eq!(true, PESEL::is_date_in_range(2299));
    assert_eq!(false, PESEL::is_date_in_range(2300));
    assert_eq!(false, PESEL::is_date_in_range(0));
    assert_eq!(false, PESEL::is_date_in_range(-1900));
    assert_eq!(false, PESEL::is_date_in_range(i32::MAX));
}

#[test]
fn century_offset_of_each_century() {
    assert_eq!(80, PESEL::calc_month_century_offset(1800));
    assert_eq!(80, PESEL::calc_month_century_offset(1899));
    assert_eq!(0, PESEL::calc_month_century_offset(1900));
    assert_eq!(0, PESEL::calc_month_century_offset(1999));
    assert_eq!(20, PESEL::calc_month_century_offset(2000));
    assert_eq!(20, PESEL::calc_month_century_offset(2099));
    assert_eq!(40, PESEL::calc_month_century_offset(2100));
    assert_eq!(40, PESEL::calc_month_century_offset(2199));
    assert_eq!(60, PESEL::calc_month_century_offset(2200));
    assert_eq!(60, PESEL::calc_month_century_offset(2299));
    assert_eq!(0, PESEL::calc_month_century_offset(1799));
    assert_eq!(0, PESEL::calc_month_century_offset(2300));
}

#[test]
fn year_from_year_digits_and_month_code() {
    assert_eq!(1944, PESEL::calc_year_from_pesel_encoded_month_and_year(44, 5));
    assert_eq!(1900, PESEL::calc_year_from_pesel_encoded_month_and_year(0, 1));
    assert_eq!(1999, PESEL::calc_year_from_pesel_encoded_month_and_year(99, 12));
    assert_eq!(2000, PESEL::calc_year_from_pesel_encoded_month_and_year(0, 21));
    assert_eq!(2099, PESEL::calc_year_from_pesel_encoded_month_and_year(99, 32));
    assert_eq!(2144, PESEL::calc_year_from_pesel_encoded_month_and_year(44, 41));
    assert_eq!(2244, PESEL::calc_year_from_pesel_encoded_month_and_year(44, 72));
    assert_eq!(1800, PESEL::calc_year_from_pesel_encoded_month_and_year(0, 81));
    assert_eq!(1899, PESEL::calc_year_from_pesel_encoded_month_and_year(99, 92));
    // outside the bands nothing is added
    assert_eq!(44, PESEL::calc_year_from_pesel_encoded_month_and_year(44, 0));
    assert_eq!(44, PESEL::calc_year_from_pesel_encoded_month_and_year(44, 13));
    assert_eq!(44, PESEL::calc_year_from_pesel_encoded_month_and_year(44, 20));
    assert_eq!(44, PESEL::calc_year_from_pesel_encoded_month_and_year(44, 95));
    assert_eq!(255, PESEL::calc_year_from_pesel_encoded_month_and_year(255, 255));
}

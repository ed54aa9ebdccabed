use pesel::pesel::{PeselGender, PESEL};
use std::str::FromStr;

#[test]
fn pesel_building_pesel_from_string() {
    let pesel_input = "44051401458";

    let pesel = PESEL::from_str(pesel_input).unwrap();
    assert_eq!(pesel.pesel_number(), pesel_input);
    assert_eq!(pesel.yob(), 44);
    assert_eq!(pesel.mob(), 05);
    assert_eq!(pesel.dob(), 14);
}

#[test]
fn pesel_check_if_is_male() {
    let pesel = PESEL::from_str("44051401458").unwrap();

    assert_eq!("male", pesel.gender_name());
    assert_eq!(PeselGender::Male, pesel.gender());
}

#[test]
fn pesel_check_if_is_female() {
    let pesel = PESEL::from_str("44051401468").unwrap();

    assert_eq!("female", pesel.gender_name());
    assert_eq!(PeselGender::Female, pesel.gender());
}

#[test]
fn pesel_proper_pesel_should_be_validated() {
    let pesel = PESEL::from_str("44051401458").unwrap();

    assert_eq!(true, pesel.is_valid());
}

#[test]
fn pesel_invalid_pesel_should_not_be_validated() {
    let pesel = PESEL::from_str("44051401459").unwrap();

    assert_eq!(false, pesel.is_valid());
}

#[test]
fn additional_test() {
    let pesel = PESEL::from_str("44051401459");
    let result = match pesel {
        Ok(t) => Some(t),
        Err(_e) => None,
    };

    assert_eq!(false, result.unwrap().is_valid());
}

#[test]
fn generated_pesel_should_be_valid() {
    let pesel = PESEL::new(1981, 06, 27, PeselGender::Female).unwrap();

    assert_eq!(true, pesel.is_valid());
}

#[test]
fn generated_pesel_should_have_proper_gender_set() {
    let pesel = PESEL::new(1981, 06, 27, PeselGender::Female).unwrap();

    assert_eq!("female", pesel.gender_name());
    assert_eq!(PeselGender::Female, pesel.gender());
    assert_ne!("male", pesel.gender_name());
    assert_ne!(PeselGender::Male, pesel.gender());
}

#[test]
fn generated_pesel_should_have_proper_gender_set2() {
    let pesel = PESEL::new(1981, 06, 27, PeselGender::Male).unwrap();

    assert_eq!("male", pesel.gender_name());
    assert_eq!(PeselGender::Male, pesel.gender());
    assert_ne!("female", pesel.gender_name());
    assert_ne!(PeselGender::Female, pesel.gender());
}

#[test]
fn pesel_number_stored_should_be_accessible() {
    let input = "44051401468";
    let pesel = PESEL::from_str(input).unwrap();

    assert_eq!(input.to_string(), pesel.pesel_number());
}

#[test]
fn is_male_and_is_female_follow_the_tenth_digit() {
    for digit in 0..10u8 {
        let prefix = format!("440514014{}", digit);
        let checksum = PESEL::calc_checksum_from_pesel_string(&prefix);
        let pesel = PESEL::from_str(&format!("{}{}", prefix, checksum)).unwrap();
        assert_eq!(digit % 2 == 1, pesel.is_male());
        assert_eq!(digit % 2 == 0, pesel.is_female());
        assert_eq!(true, pesel.is_valid());
    }
}

#[test]
fn gender_names() {
    assert_eq!("male", PeselGender::Male.to_string());
    assert_eq!("female", PeselGender::Female.to_string());
}

#[test]
fn description_has_four_lines() {
    let pesel = PESEL::from_str("44051401458").unwrap();
    assert_eq!(
        "PESEL: 44051401458\ndate of birth: 1944-05-14\ngender: male\nvalid: true",
        pesel.to_string()
    );
    let pesel = PESEL::from_str("02271409869").unwrap();
    assert_eq!(
        "PESEL: 02271409869\ndate of birth: 2002-07-14\ngender: female\nvalid: false",
        pesel.to_string()
    );
}

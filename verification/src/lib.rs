//! Parsing, validation and generation of PESEL numbers: the 11-digit Polish
//! national identification number, which encodes a date of birth and a
//! biological sex and ends in a checksum digit.
//!
//! [`pesel::PESEL`] is the number itself. `layout` is the mathematical model
//! of its text that every contract speaks of, and `theorems` holds what is
//! proved of that model. Two things are taken on trust: that `chrono` knows
//! the calendar (`calendar`), and that `rand` draws inside the range it is
//! asked for (`random`).

pub mod birth_date;
pub mod calendar;
mod digits;
pub mod layout;
pub mod pesel;
pub mod pesel_parsing_error;
pub mod random;
pub mod theorems;

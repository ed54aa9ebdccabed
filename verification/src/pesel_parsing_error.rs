//! The reasons for which a PESEL number is refused.

use vstd::prelude::*;
use vstd::string::StringExecFns;

verus! {

/// Why a text is no PESEL number, or why none can be made for a date.
#[derive(Debug, PartialEq, Eq, Clone, Copy, Structural)]
pub enum PeselError {
    /// The date is no day of the calendar, or the day is above 31.
    InvalidDoB,
    /// The year is outside 1800..=2299, or the month digits name no century.
    DoBOutOfRange,
    /// The text is not 11 bytes long.
    SizeError,
    /// The text holds a character that is no ASCII digit.
    BadFormat,
}

impl PeselError {
    /// The message that belongs to each kind of error.
    pub open spec fn message(self) -> Seq<char> {
        match self {
            PeselError::InvalidDoB => "Invalid birth date!"@,
            PeselError::DoBOutOfRange => "Date is out of range!"@,
            PeselError::SizeError => "PESEL has to be of 11 chars long!"@,
            PeselError::BadFormat => "PESEL may only contain digits!"@,
        }
    }

    /// An error of the given kind.
    pub fn new(kind: PeselError) -> (error: PeselError)
        ensures
            error == kind,
    {
        kind
    }

    /// The message of this error, as a string slice.
    pub fn pesel_error_to_message(&self) -> (text: &'static str)
        ensures
            text@ == self.message(),
    {
        match *self {
            PeselError::InvalidDoB => "Invalid birth date!",
            PeselError::DoBOutOfRange => "Date is out of range!",
            PeselError::SizeError => "PESEL has to be of 11 chars long!",
            PeselError::BadFormat => "PESEL may only contain digits!",
        }
    }

    /// The message of this error, as an owned string.
    pub fn to_string(&self) -> (text: String)
        ensures
            text@ == self.message(),
    {
        String::from_str(self.pesel_error_to_message())
    }
}

} // verus!

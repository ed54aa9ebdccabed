//! Reading and writing single decimal digits of a text.

use vstd::prelude::*;
use vstd::string::{StrSliceExecFns, StringExecFns};
use crate::layout::{all_digits, digit_at, digit_char, is_digit};

verus! {

/// Whether every character of the text is an ASCII digit.
pub(crate) fn only_digits(s: &str) -> (digits: bool)
    ensures
        digits == all_digits(s@),
{
    if !s.is_ascii() {
        return false;
    }
    let n = s.unicode_len();
    let mut i: usize = 0;
    while i < n
        invariant
            n == s@.len(),
            i <= n,
            s.is_ascii(),
            forall|k: int| 0 <= k < i ==> is_digit(#[trigger] s@[k]),
        decreases n - i,
    {
        let byte = s.get_ascii(i);
        if byte < 48 || byte > 57 {
            assert(!is_digit(s@[i as int]));
            return false;
        }
        i += 1;
    }
    true
}

/// The value of the digit at a position of the text.
pub(crate) fn digit(s: &str, i: usize) -> (value: u8)
    requires
        i < s@.len(),
        is_digit(s@[i as int]),
    ensures
        value == digit_at(s@, i as int),
        value <= 9,
{
    let c = s.get_char(i);
    (c as u8) - 48
}

/// The one-character text of a decimal digit.
pub(crate) fn digit_text(d: u8) -> (text: &'static str)
    requires
        d <= 9,
    ensures
        text@ == seq![digit_char(d as int)],
{
    proof {
        reveal_strlit("0");
        reveal_strlit("1");
        reveal_strlit("2");
        reveal_strlit("3");
        reveal_strlit("4");
        reveal_strlit("5");
        reveal_strlit("6");
        reveal_strlit("7");
        reveal_strlit("8");
        reveal_strlit("9");
    }
    let text = match d {
        0 => "0",
        1 => "1",
        2 => "2",
        3 => "3",
        4 => "4",
        5 => "5",
        6 => "6",
        7 => "7",
        8 => "8",
        _ => "9",
    };
    assert(text@ =~= seq![digit_char(d as int)]);
    text
}

/// Appends the two decimal digits of a number below 100 to the text.
pub(crate) fn push_two_digits(text: &mut String, value: u8)
    requires
        value <= 99,
    ensures
        final(text)@ == old(text)@ + seq![
            digit_char(value as int / 10),
            digit_char(value as int % 10),
        ],
{
    text.append(digit_text(value / 10));
    text.append(digit_text(value % 10));
    assert(text@ =~= old(text)@ + seq![
        digit_char(value as int / 10),
        digit_char(value as int % 10),
    ]);
}

} // verus!

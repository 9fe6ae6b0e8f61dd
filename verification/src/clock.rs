//! The time of creation of a record, as text: `YYYY-MM-DD HH:MM:SS`, in UTC.

use vstd::prelude::*;

verus! {

/// Whether `c` is a decimal digit.
pub open spec fn is_digit(c: char) -> bool {
    '0' <= c && c <= '9'
}

/// Whether the character `c` may stand at place `k` of `-MM-DD HH:MM:SS`, the
/// fifteen characters that follow the year.
pub open spec fn fits_after_year(k: int, c: char) -> bool {
    if k == 0 || k == 3 {
        c == '-'
    } else if k == 6 {
        c == ' '
    } else if k == 9 || k == 12 {
        c == ':'
    } else {
        is_digit(c)
    }
}

/// Whether `text` is a year followed by `-MM-DD HH:MM:SS`, every letter a
/// decimal digit. The year has four digits; a year past 9999 is written as a
/// `+` and its digits.
pub open spec fn clock_text(text: Seq<char>) -> bool {
    let year = text.len() - 15;
    &&& year >= 4
    &&& forall|k: int| 0 <= k < 15 ==> fits_after_year(k, #[trigger] text[year + k])
    &&& if year == 4 {
        forall|i: int| 0 <= i < 4 ==> is_digit(#[trigger] text[i])
    } else {
        text[0] == '+' && forall|i: int| 1 <= i < year ==> is_digit(#[trigger] text[i])
    }
}

/// Whether `text` has the form `YYYY-MM-DD HH:MM:SS`: nineteen characters.
pub open spec fn timestamp_text(text: Seq<char>) -> bool {
    text.len() == 19 && clock_text(text)
}

/// Calls `chrono::Utc::now` and writes the moment out with
/// `format("%Y-%m-%d %H:%M:%S")`.
///
/// Trusted: whatever the clock shows, the text is a year, then month, day,
/// hour, minute and second in two digits each, with the separators of the
/// pattern. Which moment it is, is not stated. `chrono` gives up on a clock
/// that is set before 1970.
#[verifier::external_body]
fn utc_now() -> (stamp: String)
    ensures
        clock_text(stamp@),
{
    chrono::Utc::now().format("%Y-%m-%d %H:%M:%S").to_string()
}

/// The current time in UTC, to the second. Until the end of the year 9999 it
/// is a text of the form `YYYY-MM-DD HH:MM:SS`.
pub fn now() -> (stamp: String)
    ensures
        clock_text(stamp@),
{
    utc_now()
}

/// Decides [`fits_after_year`] for a place within the fifteen characters.
fn char_fits_after_year(k: usize, c: char) -> (fits: bool)
    requires
        k < 15,
    ensures
        fits == fits_after_year(k as int, c),
{
    if k == 0 || k == 3 {
        c == '-'
    } else if k == 6 {
        c == ' '
    } else if k == 9 || k == 12 {
        c == ':'
    } else {
        '0' <= c && c <= '9'
    }
}

/// Decides [`timestamp_text`].
pub fn is_timestamp(text: &str) -> (valid: bool)
    ensures
        valid == timestamp_text(text@),
{
    if text.unicode_len() != 19 {
        return false;
    }
    let mut i: usize = 0;
    while i < 4
        invariant
            i <= 4,
            text@.len() == 19,
            forall|j: int| 0 <= j < i ==> is_digit(#[trigger] text@[j]),
        decreases 4 - i,
    {
        let c = text.get_char(i);
        if !('0' <= c && c <= '9') {
            return false;
        }
        i += 1;
    }
    let mut k: usize = 0;
    while k < 15
        invariant
            k <= 15,
            text@.len() == 19,
            forall|j: int| 0 <= j < 4 ==> is_digit(#[trigger] text@[j]),
            forall|j: int| 0 <= j < k ==> fits_after_year(j, #[trigger] text@[4 + j]),
        decreases 15 - k,
    {
        if !char_fits_after_year(k, text.get_char(4 + k)) {
            return false;
        }
        k += 1;
    }
    true
}

} // verus!

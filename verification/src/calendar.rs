//! Calendar dates and the clock, as far as the invoice needs them.

use vstd::prelude::*;
use crate::text::spec_is_ascii_digit;

verus! {

/// How the dates of an invoice are written: year, month and day with
/// hyphens between them.
pub const DATE_FORMAT: &'static str = "%Y-%m-%d";

/// How a moment is written in the metadata: date and time of day to the
/// second, and the offset of universal time.
pub const TIMESTAMP_FORMAT: &'static str = "%Y-%m-%dT%H:%M:%S+00:00";

/// Whether `chrono::NaiveDate::parse_from_str` reads `text` as a calendar
/// date written the way `format` says.
pub uninterp spec fn chrono_accepts_date(text: Seq<char>, format: Seq<char>) -> bool;

/// `text` is a calendar date in the form `YYYY-MM-DD`.
pub open spec fn spec_is_valid_date(text: Seq<char>) -> bool {
    chrono_accepts_date(text, DATE_FORMAT@)
}

/// `chrono::NaiveDate::parse_from_str(date, format)`: whether it returns a
/// date depends on the two texts alone, and is given the name
/// `chrono_accepts_date`.
#[verifier::external_body]
fn parse_date_succeeds(date: &str, format: &str) -> (r: bool)
    ensures
        r == chrono_accepts_date(date@, format@),
{
    chrono::NaiveDate::parse_from_str(date, format).is_ok()
}

/// Whether `date` is a calendar date in the form `YYYY-MM-DD`.
pub fn is_valid_date(date: &str) -> (r: bool)
    ensures
        r == spec_is_valid_date(date@),
{
    parse_date_succeeds(date, DATE_FORMAT)
}

/// `s` holds a digit at `at` and at the place after it.
pub open spec fn spec_two_digits(s: Seq<char>, at: int) -> bool {
    &&& 0 <= at
    &&& at + 1 < s.len()
    &&& spec_is_ascii_digit(s[at])
    &&& spec_is_ascii_digit(s[at + 1])
}

/// `s` is written as a moment in universal time is: a year, then
/// `-MM-DDTHH:MM:SS+00:00`, each of month, day, hour, minute and second in
/// two digits.
pub open spec fn spec_is_timestamp(s: Seq<char>) -> bool {
    let k = s.len() - 21;
    &&& k > 0
    &&& s[k] == '-'
    &&& spec_two_digits(s, k + 1)
    &&& s[k + 3] == '-'
    &&& spec_two_digits(s, k + 4)
    &&& s[k + 6] == 'T'
    &&& spec_two_digits(s, k + 7)
    &&& s[k + 9] == ':'
    &&& spec_two_digits(s, k + 10)
    &&& s[k + 12] == ':'
    &&& spec_two_digits(s, k + 13)
    &&& s.subrange(k + 15, s.len() as int) == "+00:00"@
}

/// `chrono::Utc::now`, written with `format` and `to_string`.  Which
/// moment comes back depends on the clock; how it is written does not:
/// chrono writes the year, copies what stands between the parts, and
/// writes month, day, hour, minute and second in two digits each.  A
/// format that chrono does not know makes `to_string` panic, so only the
/// one format is let in.
#[verifier::external_body]
fn format_now(format: &str) -> (stamp: String)
    requires
        format@ == TIMESTAMP_FORMAT@,
    ensures
        spec_is_timestamp(stamp@),
{
    chrono::Utc::now().format(format).to_string()
}

/// The present moment in universal time, written as
/// `YYYY-MM-DDTHH:MM:SS+00:00`.
pub(crate) fn current_timestamp() -> (stamp: String)
    ensures
        spec_is_timestamp(stamp@),
{
    format_now(TIMESTAMP_FORMAT)
}

} // verus!

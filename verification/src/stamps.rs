//! The two values that the library takes from its surroundings: the current
//! time and fresh task identifiers.

use vstd::prelude::*;

verus! {

/// The text is a hyphenated lowercase UUID: 36 characters, hyphens at
/// positions 8, 13, 18 and 23, and lowercase hexadecimal digits elsewhere.
pub open spec fn is_hyphenated_uuid(s: Seq<char>) -> bool {
    &&& s.len() == 36
    &&& forall|i: int|
        0 <= i < 36 ==> if i == 8 || i == 13 || i == 18 || i == 23 {
            s[i] == '-'
        } else {
            ('0' <= #[trigger] s[i] <= '9') || ('a' <= s[i] <= 'f')
        }
}

/// Every character of `s` is a decimal digit.
pub open spec fn all_digits(s: Seq<char>) -> bool {
    forall|i: int| 0 <= i < s.len() ==> '0' <= #[trigger] s[i] <= '9'
}

/// A year as RFC 3339 text writes it: four digits, or, past the year 9999,
/// a plus sign and five or six digits.
pub open spec fn is_year_text(s: Seq<char>) -> bool {
    ||| s.len() == 4 && all_digits(s)
    ||| (s.len() == 6 || s.len() == 7) && s[0] == '+' && all_digits(s.drop_first())
}

/// The rest of the date and the time of day: `-MM-DDTHH:MM:SS`, each letter
/// standing for a digit.
pub open spec fn is_date_time_rest(s: Seq<char>) -> bool {
    &&& s.len() == 15
    &&& s[0] == '-' && s[3] == '-' && s[6] == 'T' && s[9] == ':' && s[12] == ':'
    &&& forall|i: int|
        0 <= i < 15 && i != 0 && i != 3 && i != 6 && i != 9 && i != 12 ==> '0' <= #[trigger] s[i]
            <= '9'
}

/// The fraction of a second: nothing, or a point and three, six or nine digits.
pub open spec fn is_second_fraction(s: Seq<char>) -> bool {
    ||| s.len() == 0
    ||| (s.len() == 4 || s.len() == 7 || s.len() == 10) && s[0] == '.' && all_digits(
        s.drop_first(),
    )
}

/// The offset of UTC: `+00:00`.
pub open spec fn is_utc_offset(s: Seq<char>) -> bool {
    s == seq!['+', '0', '0', ':', '0', '0']
}

/// `s` is RFC 3339 text whose year takes the first `y` characters.
pub open spec fn is_rfc3339_utc_with_year(s: Seq<char>, y: int) -> bool {
    &&& y + 21 <= s.len()
    &&& is_year_text(s.subrange(0, y))
    &&& is_date_time_rest(s.subrange(y, y + 15))
    &&& is_second_fraction(s.subrange(y + 15, s.len() - 6))
    &&& is_utc_offset(s.subrange(s.len() - 6, s.len() as int))
}

/// `s` is a UTC time as RFC 3339 text with a numeric offset, such as
/// `2024-05-01T12:30:00.250+00:00`.
pub open spec fn is_rfc3339_utc(s: Seq<char>) -> bool {
    ||| is_rfc3339_utc_with_year(s, 4)
    ||| is_rfc3339_utc_with_year(s, 6)
    ||| is_rfc3339_utc_with_year(s, 7)
}

/// `chrono::Utc::now().to_rfc3339()`: the current UTC time as RFC 3339 text.
/// chrono writes the year (four digits, or a sign and more digits past 9999),
/// `-MM-DDTHH:MM:SS`, the fraction of a second that `SecondsFormat::AutoSi`
/// asks for (none, or three, six or nine digits) and the offset `+00:00`.
/// Which time it is depends on the clock, so only this form is stated.
#[verifier::external_body]
pub(crate) fn now() -> (r: String)
    ensures
        is_rfc3339_utc(r@),
{
    chrono::Utc::now().to_rfc3339()
}

/// `uuid::Uuid::new_v4().to_string()`: a random version-4 UUID. The crate
/// formats it hyphenated in lowercase hexadecimal (`Display` goes through
/// `LowerHex` and `format_hyphenated`); which value comes out is chance, so
/// nothing else is stated.
#[verifier::external_body]
pub(crate) fn new_task_id() -> (r: String)
    ensures
        is_hyphenated_uuid(r@),
{
    uuid::Uuid::new_v4().to_string()
}

} // verus!

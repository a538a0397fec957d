//! Field validators: the three patterns that a present value of a date, email or
//! country-code field has to match.

use crate::text::{is_ascii_digit, is_whitespace_char, string_chars};
use vstd::prelude::*;
use vstd::string::*;

verus! {

/// Why a present value was turned down.
#[derive(Clone, Copy, Debug, PartialEq, Eq, Structural)]
pub enum ValidationError {
    InvalidDateFormat,
    InvalidEmailFormat,
    InvalidCountryCode,
}

impl ValidationError {
    /// A short machine-readable code for the rejection.
    pub fn code(&self) -> (r: &'static str)
        ensures
            r@ == match *self {
                ValidationError::InvalidDateFormat => "invalid_iso8601_format"@,
                ValidationError::InvalidEmailFormat => "invalid_email_format"@,
                ValidationError::InvalidCountryCode => "invalid_country_code"@,
            },
    {
        match self {
            ValidationError::InvalidDateFormat => "invalid_iso8601_format",
            ValidationError::InvalidEmailFormat => "invalid_email_format",
            ValidationError::InvalidCountryCode => "invalid_country_code",
        }
    }
}

/// A year: a digit `1` or `2` followed by three digits, at the start of `s`.
pub open spec fn year_at_start(s: Seq<char>) -> bool {
    &&& s.len() >= 4
    &&& '1' <= s[0] <= '2'
    &&& is_ascii_digit(s[1])
    &&& is_ascii_digit(s[2])
    &&& is_ascii_digit(s[3])
}

/// A hyphen and a month, `00` to `19`, from place 4 of `s`.
pub open spec fn month_follows(s: Seq<char>) -> bool {
    &&& s.len() >= 7
    &&& s[4] == '-'
    &&& '0' <= s[5] <= '1'
    &&& is_ascii_digit(s[6])
}

/// A hyphen and a day, `00` to `39`, from place 7 of `s`.
pub open spec fn day_follows(s: Seq<char>) -> bool {
    &&& s.len() >= 10
    &&& s[7] == '-'
    &&& '0' <= s[8] <= '3'
    &&& is_ascii_digit(s[9])
}

/// The date pattern: `YYYY`, `YYYY-MM` or `YYYY-MM-DD` and nothing around it. The
/// digits are held to fixed classes, not to a calendar.
pub open spec fn is_iso8601_date(s: Seq<char>) -> bool {
    ||| s.len() == 4 && year_at_start(s)
    ||| s.len() == 7 && year_at_start(s) && month_follows(s)
    ||| s.len() == 10 && year_at_start(s) && month_follows(s) && day_follows(s)
}

/// `s` splits as local part, `@` at place `at`, and a domain whose `.` at place
/// `dot` has something before and after it; no other `@` occurs.
pub open spec fn email_split(s: Seq<char>, at: int, dot: int) -> bool {
    &&& 0 < at
    &&& at + 1 < dot
    &&& dot + 1 < s.len()
    &&& s[at] == '@'
    &&& s[dot] == '.'
    &&& forall|j: int| 0 <= j < s.len() && j != at ==> s[j] != '@'
}

/// The email pattern: `local@domain.tld` without whitespace.
pub open spec fn is_email(s: Seq<char>) -> bool {
    &&& forall|i: int| 0 <= i < s.len() ==> !is_whitespace_char(#[trigger] s[i])
    &&& exists|at: int, dot: int| email_split(s, at, dot)
}

/// The country-code pattern: two uppercase ASCII letters.
pub open spec fn is_country_code(s: Seq<char>) -> bool {
    &&& s.len() == 2
    &&& 'A' <= s[0] <= 'Z'
    &&& 'A' <= s[1] <= 'Z'
}

fn digit_in(c: char, low: char, high: char) -> (r: bool)
    ensures
        r == (low <= c <= high),
{
    low <= c && c <= high
}

/// Whether the characters match the date pattern.
pub fn chars_are_iso8601_date(v: &Vec<char>) -> (r: bool)
    ensures
        r == is_iso8601_date(v@),
{
    let n = v.len();
    if n != 4 && n != 7 && n != 10 {
        return false;
    }
    let year = digit_in(v[0], '1', '2') && digit_in(v[1], '0', '9') && digit_in(v[2], '0', '9')
        && digit_in(v[3], '0', '9');
    if !year {
        return false;
    }
    if n == 4 {
        return true;
    }
    let month = v[4] == '-' && digit_in(v[5], '0', '1') && digit_in(v[6], '0', '9');
    if !month {
        return false;
    }
    if n == 7 {
        return true;
    }
    v[7] == '-' && digit_in(v[8], '0', '3') && digit_in(v[9], '0', '9')
}

/// Accepts `date` exactly when it matches the date pattern.
pub fn validate_iso8601(date: &str) -> (r: Result<(), ValidationError>)
    ensures
        r is Ok <==> is_iso8601_date(date@),
        r is Err ==> r == Err::<(), ValidationError>(ValidationError::InvalidDateFormat),
{
    let chars = string_chars(date);
    if chars_are_iso8601_date(&chars) {
        Ok(())
    } else {
        Err(ValidationError::InvalidDateFormat)
    }
}

/// Whether the characters match the email pattern.
pub fn chars_are_email(v: &Vec<char>) -> (r: bool)
    ensures
        r == is_email(v@),
{
    let n = v.len();
    let mut at: usize = 0;
    let mut seen: bool = false;
    let mut i: usize = 0;
    while i < n
        invariant
            i <= n == v.len(),
            forall|j: int| 0 <= j < i ==> !is_whitespace_char(#[trigger] v@[j]),
            seen ==> at < i && v@[at as int] == '@',
            seen ==> forall|j: int| 0 <= j < i && j != at ==> v@[j] != '@',
            !seen ==> forall|j: int| 0 <= j < i ==> v@[j] != '@',
        decreases n - i,
    {
        let c = v[i];
        if c.is_whitespace() {
            assert(is_whitespace_char(v@[i as int]));
            return false;
        }
        if c == '@' {
            if seen {
                assert forall|a: int, d: int| !email_split(v@, a, d) by {
                    if email_split(v@, a, d) {
                        if a == at as int {
                            assert(v@[i as int] != '@');
                        } else {
                            assert(v@[at as int] != '@');
                        }
                    }
                }
                return false;
            }
            seen = true;
            at = i;
        }
        i += 1;
    }
    if !seen {
        assert forall|a: int, d: int| !email_split(v@, a, d) by {
            if email_split(v@, a, d) {
                assert(v@[a] != '@');
            }
        }
        return false;
    }
    if at == 0 || n - at < 4 {
        assert forall|a: int, d: int| !email_split(v@, a, d) by {
            if email_split(v@, a, d) {
                if a != at as int {
                    assert(v@[at as int] != '@');
                }
            }
        }
        return false;
    }
    let mut dot: usize = at + 2;
    while dot < n - 1
        invariant
            0 < at,
            at + 2 <= dot <= n - 1,
            n == v.len(),
            forall|j: int| at + 1 < j < dot ==> v@[j] != '.',
            v@[at as int] == '@',
            forall|j: int| 0 <= j < n && j != at ==> v@[j] != '@',
            forall|j: int| 0 <= j < n ==> !is_whitespace_char(#[trigger] v@[j]),
        decreases n - dot,
    {
        if v[dot] == '.' {
            assert(email_split(v@, at as int, dot as int));
            return true;
        }
        dot += 1;
    }
    assert forall|a: int, d: int| !email_split(v@, a, d) by {
        if email_split(v@, a, d) {
            if a != at as int {
                assert(v@[at as int] != '@');
            } else {
                assert(v@[d] != '.');
            }
        }
    }
    false
}

/// Accepts `email` exactly when it matches the email pattern.
pub fn validate_email(email: &str) -> (r: Result<(), ValidationError>)
    ensures
        r is Ok <==> is_email(email@),
        r is Err ==> r == Err::<(), ValidationError>(ValidationError::InvalidEmailFormat),
{
    let chars = string_chars(email);
    if chars_are_email(&chars) {
        Ok(())
    } else {
        Err(ValidationError::InvalidEmailFormat)
    }
}

/// Whether the characters match the country-code pattern.
pub fn chars_are_country_code(v: &Vec<char>) -> (r: bool)
    ensures
        r == is_country_code(v@),
{
    v.len() == 2 && digit_in(v[0], 'A', 'Z') && digit_in(v[1], 'A', 'Z')
}

/// Accepts `code` exactly when it matches the country-code pattern.
pub fn validate_country_code(code: &str) -> (r: Result<(), ValidationError>)
    ensures
        r is Ok <==> is_country_code(code@),
        r is Err ==> r == Err::<(), ValidationError>(ValidationError::InvalidCountryCode),
{
    let chars = string_chars(code);
    if chars_are_country_code(&chars) {
        Ok(())
    } else {
        Err(ValidationError::InvalidCountryCode)
    }
}

/// An accepted email has exactly one `@`, with a local part before it and, after
/// it, a domain that holds a `.`; and it holds no whitespace.
pub proof fn lemma_email_shape(s: Seq<char>)
    requires
        is_email(s),
    ensures
        s.contains('@'),
        s.index_of('@') > 0,
        forall|j: int| 0 <= j < s.len() && j != s.index_of('@') ==> s[j] != '@',
        s.skip(s.index_of('@') + 1).contains('.'),
        forall|i: int| 0 <= i < s.len() ==> !is_whitespace_char(s[i]),
{
    let (at, dot) = choose|at: int, dot: int| email_split(s, at, dot);
    assert(s[at] == '@');
    let first = s.index_of('@');
    assert(first == at);
    let domain = s.skip(at + 1);
    assert(domain[dot - at - 1] == '.');
}

} // verus!

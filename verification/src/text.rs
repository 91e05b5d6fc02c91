//! The std text functions that the commands call: upper-casing, UTF-8
//! decoding and decimal parsing of strings.
use core::num::ParseIntError;
use vstd::prelude::*;
use vstd::string::StringSliceAdditionalSpecFns;
use vstd::utf8::{is_ascii_chars, valid_utf8};

verus! {

/// Declares the outside type `core::num::ParseIntError`, with no fields visible.
#[verifier::external_type_specification]
#[verifier::external_body]
pub struct ExParseIntError(ParseIntError);

/// What `str::to_uppercase` returns for the characters `s`.
pub uninterp spec fn uppercase_of(s: Seq<char>) -> Seq<char>;

/// `c` with the ASCII letters `a` to `z` mapped to `A` to `Z`.
pub open spec fn ascii_upper_char(c: char) -> char {
    if 'a' <= c && c <= 'z' {
        ((c as u32) - 32) as char
    } else {
        c
    }
}

/// Every character of `s` mapped by `ascii_upper_char`.
pub open spec fn ascii_upper(s: Seq<char>) -> Seq<char> {
    Seq::new(s.len(), |i: int| ascii_upper_char(s[i]))
}

/// The upper-case form of `s` as `str::to_uppercase` gives it: spelled out
/// for ASCII text, named for the rest of Unicode.
pub open spec fn upper(s: Seq<char>) -> Seq<char> {
    if is_ascii_chars(s) {
        ascii_upper(s)
    } else {
        uppercase_of(s)
    }
}

/// Calls `str::to_uppercase`. Its documentation defines the result by the
/// Unicode uppercase mapping, which takes `a` to `z` to `A` to `Z` and leaves
/// every other ASCII character as it is; for other text only the name
/// `uppercase_of` is claimed.
#[verifier::external_body]
pub(crate) fn to_uppercase(s: &str) -> (r: String)
    ensures
        r@ == uppercase_of(s@),
        is_ascii_chars(s@) ==> r@ == ascii_upper(s@),
{
    s.to_uppercase()
}

/// Calls `core::str::from_utf8`, which accepts exactly the byte strings that
/// are valid UTF-8 and then views the same bytes as a string.
#[verifier::external_body]
pub(crate) fn str_from_utf8<'a>(b: &'a [u8]) -> (r: Option<&'a str>)
    ensures
        r is Some <==> valid_utf8(b@),
        r matches Some(s) ==> s.spec_bytes() == b@,
{
    core::str::from_utf8(b).ok()
}

/// `c` is one of the decimal digits `0` to `9`.
pub open spec fn is_digit_char(c: char) -> bool {
    '0' <= c && c <= '9'
}

/// The number that the decimal digits `s` spell, most significant first.
pub open spec fn char_digits_value(s: Seq<char>) -> nat
    decreases s.len(),
{
    if s.len() == 0 {
        0
    } else {
        char_digits_value(s.drop_last()) * 10 + ((s.last() as u32) - ('0' as u32)) as nat
    }
}

/// The part of `s` after an optional leading `+` sign.
pub open spec fn u64_digits_part(s: Seq<char>) -> Seq<char> {
    if s.len() > 0 && s[0] == '+' {
        s.drop_first()
    } else {
        s
    }
}

/// `s` is one or more decimal digits.
pub open spec fn all_digits(s: Seq<char>) -> bool {
    s.len() > 0 && forall|i: int| 0 <= i < s.len() ==> is_digit_char(#[trigger] s[i])
}

/// What `<u64 as FromStr>::from_str` accepts, as its documentation states:
/// an optional `+` sign followed by one or more decimal digits and nothing
/// else, spelling a number that fits in a `u64`.
pub open spec fn spec_parse_u64(s: Seq<char>) -> Option<u64> {
    let digits = u64_digits_part(s);
    if all_digits(digits) && char_digits_value(digits) <= u64::MAX {
        Some(char_digits_value(digits) as u64)
    } else {
        None
    }
}

/// The kinds that `ParseIntError::kind` reports, as `core::num::IntErrorKind`
/// lists them.
#[derive(Debug, PartialEq, Eq, Structural)]
pub enum IntErrorCause {
    /// The text to parse is empty.
    Empty,
    /// The text holds a character that is not a digit in its place.
    InvalidDigit,
    /// The number is too large for the target type.
    PosOverflow,
    /// The number is too small for the target type.
    NegOverflow,
    /// The number is zero where zero is not allowed.
    Zero,
    /// A kind that std may add later.
    Other,
}

/// The kind that `ParseIntError::kind` reports for `e`.
pub uninterp spec fn int_error_cause(e: ParseIntError) -> IntErrorCause;

/// What the documentation of `IntErrorKind` gives of the kind of the error
/// of parsing `s` as a `u64`: `Empty` exactly for the empty string;
/// `PosOverflow` for digits that spell too large a number; `InvalidDigit`
/// where a non-digit (a sign on its own among them) stands within the first
/// 19 characters after the sign, which cannot spell too large a number; and
/// no other kind.
pub open spec fn u64_error_cause_fits(s: Seq<char>, c: IntErrorCause) -> bool {
    let digits = u64_digits_part(s);
    &&& (c == IntErrorCause::Empty <==> s.len() == 0)
    &&& all_digits(digits) ==> c == IntErrorCause::PosOverflow
    &&& (s.len() > 0 && !all_digits(digits) && digits.len() <= 19) ==> c
        == IntErrorCause::InvalidDigit
    &&& (c == IntErrorCause::Empty || c == IntErrorCause::InvalidDigit || c
        == IntErrorCause::PosOverflow)
}

/// Calls `str::parse::<u64>`, whose documented grammar is `spec_parse_u64`:
/// it succeeds exactly where that gives a value, and with that value; on
/// failure, the kind of the error is as `u64_error_cause_fits` says.
#[verifier::external_body]
pub(crate) fn parse_u64(s: &str) -> (r: Result<u64, ParseIntError>)
    ensures
        r is Ok <==> spec_parse_u64(s@) is Some,
        r matches Ok(v) ==> spec_parse_u64(s@) == Some(v),
        r matches Err(e) ==> u64_error_cause_fits(s@, int_error_cause(e)),
{
    s.parse::<u64>()
}

} // verus!

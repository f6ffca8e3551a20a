//! Scalar values as text: booleans, unsigned decimal integers and RFC 3339
//! timestamps. The conversions themselves are std's and the `time` crate's;
//! this module states what they return.

use vstd::prelude::*;
use time::OffsetDateTime;

verus! {

/// `time::OffsetDateTime`, carried as an opaque value.
#[verifier::external_type_specification]
#[verifier::external_body]
pub struct ExOffsetDateTime(time::OffsetDateTime);

/// `time::error::Parse`, carried as an opaque value.
#[verifier::external_type_specification]
#[verifier::external_body]
pub struct ExTimeParseError(time::error::Parse);

/// `core::num::ParseIntError`, carried as an opaque value.
#[verifier::external_type_specification]
#[verifier::external_body]
pub struct ExParseIntError(core::num::ParseIntError);

/// `core::str::ParseBoolError`, carried as an opaque value.
#[verifier::external_type_specification]
#[verifier::external_body]
pub struct ExParseBoolError(core::str::ParseBoolError);

/// `Clone::clone` of `time::OffsetDateTime`, a `Copy` type: the same value.
pub assume_specification[ <time::OffsetDateTime as Clone>::clone ](
    instant: &time::OffsetDateTime,
) -> (r: time::OffsetDateTime)
    ensures
        r == *instant,
;

/// The instant that `text` denotes when read as an RFC 3339 timestamp, or
/// nothing where it is not one.
pub uninterp spec fn rfc3339_instant(text: Seq<char>) -> Option<OffsetDateTime>;

/// The truth value that `text` spells: only `true` and `false` spell one.
pub open spec fn bool_of_text(text: Seq<char>) -> Option<bool> {
    if text == "true"@ {
        Some(true)
    } else if text == "false"@ {
        Some(false)
    } else {
        None
    }
}

pub open spec fn is_decimal_digit(c: char) -> bool {
    '0' <= c && c <= '9'
}

pub open spec fn digit_value(c: char) -> nat {
    (c as nat - '0' as nat) as nat
}

/// The number that a run of decimal digits spells, most significant first.
pub open spec fn digits_value(digits: Seq<char>) -> nat
    decreases digits.len(),
{
    if digits.len() == 0 {
        0
    } else {
        digits_value(digits.drop_last()) * 10 + digit_value(digits.last())
    }
}

/// `text` without one leading plus sign.
pub open spec fn unsigned_part(text: Seq<char>) -> Seq<char> {
    if text.len() > 0 && text[0] == '+' {
        text.drop_first()
    } else {
        text
    }
}

/// The unsigned 64-bit integer that `text` spells in decimal: an optional
/// plus sign, then one or more digits and nothing else, the number no
/// greater than `u64::MAX`.
pub open spec fn u64_of_text(text: Seq<char>) -> Option<u64> {
    let digits = unsigned_part(text);
    if digits.len() > 0 && (forall|i: int| 0 <= i < digits.len() ==> is_decimal_digit(#[trigger] digits[i]))
        && digits_value(digits) <= u64::MAX {
        Some(digits_value(digits) as u64)
    } else {
        None
    }
}

/// The decimal digits of `n`, most significant first, without leading zeros.
pub open spec fn decimal_digits(n: nat) -> Seq<char>
    decreases n,
{
    if n < 10 {
        seq![(('0' as nat + n) as u8) as char]
    } else {
        decimal_digits(n / 10).push((('0' as nat + n % 10) as u8) as char)
    }
}

/// `<bool as FromStr>::from_str`: accepts exactly `true` and `false`.
#[verifier::external_body]
pub(crate) fn parse_bool(text: &str) -> (r: Result<bool, core::str::ParseBoolError>)
    ensures
        match r {
            Ok(value) => bool_of_text(text@) == Some(value),
            Err(_) => bool_of_text(text@) is None,
        },
{
    text.parse::<bool>()
}

/// `<u64 as FromStr>::from_str`: accepts an optional plus sign followed by
/// decimal digits only, and fails on the empty string, on any other
/// character and on a number that does not fit.
#[verifier::external_body]
pub(crate) fn parse_u64(text: &str) -> (r: Result<u64, core::num::ParseIntError>)
    ensures
        match r {
            Ok(value) => u64_of_text(text@) == Some(value),
            Err(_) => u64_of_text(text@) is None,
        },
{
    text.parse::<u64>()
}

/// `time::OffsetDateTime::parse` with the well-known `Rfc3339` format. The
/// contract claims only that the outcome depends on the text alone.
#[verifier::external_body]
pub(crate) fn parse_rfc3339(text: &str) -> (r: Result<OffsetDateTime, time::error::Parse>)
    ensures
        match r {
            Ok(instant) => rfc3339_instant(text@) == Some(instant),
            Err(_) => rfc3339_instant(text@) is None,
        },
{
    OffsetDateTime::parse(text, &time::format_description::well_known::Rfc3339)
}

/// `usize`'s `Display` through `format!`: the decimal digits of the number.
#[verifier::external_body]
pub(crate) fn decimal_text(n: usize) -> (r: String)
    ensures
        r@ == decimal_digits(n as nat),
{
    format!("{n}")
}

/// `str`'s `==`: the two texts hold the same characters.
#[verifier::external_body]
pub(crate) fn same_text(a: &str, b: &str) -> (r: bool)
    ensures
        r == (a@ == b@),
{
    a == b
}

} // verus!

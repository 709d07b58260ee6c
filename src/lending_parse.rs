use vstd::prelude::*;

use crate::parse_error::{CharErrorKind, IntErrorKind, ParseError};
use crate::sealed::Sealed;

verus! {

/// Converts a borrowed text into a value of the implementing type; unlike `FromStr`,
/// the value may borrow from the text.
pub trait LendingFromStr<'a>: Sized {
    /// Holds when `r` is an outcome that converting the text `s` may give.
    spec fn converts(s: Seq<char>, r: Result<Self, ParseError>) -> bool;

    /// Conversion is a function of the text: two outcomes that it may give for one text agree
    /// on success, and a refusal is the same error.
    proof fn converts_determined(
        s: Seq<char>,
        r1: Result<Self, ParseError>,
        r2: Result<Self, ParseError>,
    )
        requires
            Self::converts(s, r1),
            Self::converts(s, r2),
        ensures
            r1 is Ok <==> r2 is Ok,
            r1 is Err ==> r1 == r2,
    ;

    /// Converts `s` into a value of this type, or says why it cannot.
    fn from_str(s: &'a str) -> (r: Result<Self, ParseError>)
        ensures
            Self::converts(s@, r),
    ;
}

impl<'a> LendingFromStr<'a> for &'a str {
    open spec fn converts(s: Seq<char>, r: Result<&'a str, ParseError>) -> bool {
        r matches Ok(v) && v@ == s
    }

    proof fn converts_determined(s: Seq<char>, r1: Result<&'a str, ParseError>, r2: Result<&'a str, ParseError>) {
    }

    fn from_str(s: &'a str) -> (r: Result<&'a str, ParseError>)
        ensures
            r == Ok::<&'a str, ParseError>(s),
    {
        Ok(s)
    }
}

impl<'a> LendingFromStr<'a> for String {
    open spec fn converts(s: Seq<char>, r: Result<String, ParseError>) -> bool {
        r matches Ok(v) && v@ == s
    }

    proof fn converts_determined(s: Seq<char>, r1: Result<String, ParseError>, r2: Result<String, ParseError>) {
    }

    fn from_str(s: &'a str) -> (r: Result<String, ParseError>) {
        Ok(s.to_owned())
    }
}

/// What `bool`'s standard parser gives: exactly `true` or `false`.
pub open spec fn bool_text(s: Seq<char>) -> Option<bool> {
    if s == "true"@ {
        Some(true)
    } else if s == "false"@ {
        Some(false)
    } else {
        None
    }
}

/// Relies on `bool::from_str`: it accepts exactly `true` and `false`.
#[verifier::external_body]
fn std_parse_bool(s: &str) -> (r: Option<bool>)
    ensures
        r == bool_text(s@),
{
    s.parse::<bool>().ok()
}

/// The outcome of converting `s` into a `bool`.
pub open spec fn bool_conversion(s: Seq<char>) -> Result<bool, ParseError> {
    match bool_text(s) {
        Some(b) => Ok(b),
        None => Err(ParseError::Bool),
    }
}

impl<'a> LendingFromStr<'a> for bool {
    open spec fn converts(s: Seq<char>, r: Result<bool, ParseError>) -> bool {
        r == bool_conversion(s)
    }

    proof fn converts_determined(s: Seq<char>, r1: Result<bool, ParseError>, r2: Result<bool, ParseError>) {
    }

    fn from_str(s: &'a str) -> (r: Result<bool, ParseError>) {
        match std_parse_bool(s) {
            Some(b) => Ok(b),
            None => Err(ParseError::Bool),
        }
    }
}

/// Relies on `char::from_str`: it accepts a text of exactly one character.
#[verifier::external_body]
fn std_parse_char(s: &str) -> (r: Option<char>)
    ensures
        r == (if s@.len() == 1 {
            Some(s@[0])
        } else {
            None
        }),
{
    s.parse::<char>().ok()
}

/// The outcome of converting `s` into a `char`.
pub open spec fn char_conversion(s: Seq<char>) -> Result<char, ParseError> {
    if s.len() == 1 {
        Ok(s[0])
    } else if s.len() == 0 {
        Err(ParseError::Char(CharErrorKind::EmptyString))
    } else {
        Err(ParseError::Char(CharErrorKind::TooManyChars))
    }
}

impl<'a> LendingFromStr<'a> for char {
    open spec fn converts(s: Seq<char>, r: Result<char, ParseError>) -> bool {
        r == char_conversion(s)
    }

    proof fn converts_determined(s: Seq<char>, r1: Result<char, ParseError>, r2: Result<char, ParseError>) {
    }

    fn from_str(s: &'a str) -> (r: Result<char, ParseError>) {
        match std_parse_char(s) {
            Some(c) => Ok(c),
            None => {
                if s.is_empty() {
                    Err(ParseError::Char(CharErrorKind::EmptyString))
                } else {
                    Err(ParseError::Char(CharErrorKind::TooManyChars))
                }
            },
        }
    }
}

pub open spec fn is_digit(c: char) -> bool {
    '0' <= c && c <= '9'
}

/// A non-empty run of decimal digits.
pub open spec fn all_digits(d: Seq<char>) -> bool {
    d.len() > 0 && forall|i: int| 0 <= i < d.len() ==> is_digit(#[trigger] d[i])
}

/// The value of a run of decimal digits.
pub open spec fn digits_value(d: Seq<char>) -> int
    decreases d.len(),
{
    if d.len() == 0 {
        0
    } else {
        digits_value(d.drop_last()) * 10 + ((d.last() as u32) as int - 48)
    }
}

/// The value of an integer numeral: an optional sign (`-` only where `signed`) followed by
/// decimal digits, with nothing before or after.
pub open spec fn numeral_value(s: Seq<char>, signed: bool) -> Option<int> {
    if s.len() > 0 && s[0] == '+' && all_digits(s.skip(1)) {
        Some(digits_value(s.skip(1)))
    } else if signed && s.len() > 0 && s[0] == '-' && all_digits(s.skip(1)) {
        Some(-digits_value(s.skip(1)))
    } else if all_digits(s) {
        Some(digits_value(s))
    } else {
        None
    }
}

/// The part of an integer text after a sign that the parser takes as one (`-` only where
/// `signed`).
pub open spec fn unsigned_part(s: Seq<char>, signed: bool) -> Seq<char> {
    if s.len() > 0 && (s[0] == '+' || (signed && s[0] == '-')) {
        s.skip(1)
    } else {
        s
    }
}

/// How many digits a text starts with.
pub open spec fn leading_digit_count(d: Seq<char>) -> nat
    decreases d.len(),
{
    if d.len() == 0 || !is_digit(d[0]) {
        0
    } else {
        1 + leading_digit_count(d.skip(1))
    }
}

/// The signed value of the digits that an integer text starts with, after its sign.
pub open spec fn leading_value(s: Seq<char>, signed: bool) -> int {
    let body = unsigned_part(s, signed);
    let v = digits_value(body.take(leading_digit_count(body) as int));
    if signed && s.len() > 0 && s[0] == '-' {
        -v
    } else {
        v
    }
}

/// Why an integer text with no value in `lo..=hi` is refused: `Empty` for the empty text; else
/// the overflow that the digits before the first misplaced character already reach (a numeral
/// out of range being all digits); else `InvalidDigit`.
pub open spec fn int_error_kind(s: Seq<char>, lo: int, hi: int, signed: bool) -> IntErrorKind {
    if s.len() == 0 {
        IntErrorKind::Empty
    } else if leading_value(s, signed) > hi {
        IntErrorKind::PosOverflow
    } else if leading_value(s, signed) < lo {
        IntErrorKind::NegOverflow
    } else {
        IntErrorKind::InvalidDigit
    }
}

/// Holds when `r` is what an integer type's standard parser gives for `s`, the type ranging
/// over `lo..=hi` and taking a `-` sign when `signed`: the value of the numeral where it is one
/// in range, else the refusal that `int_error_kind` names.
pub open spec fn int_outcome(
    s: Seq<char>,
    lo: int,
    hi: int,
    signed: bool,
    r: Result<int, IntErrorKind>,
) -> bool {
    match r {
        Ok(v) => numeral_value(s, signed) == Some(v) && lo <= v <= hi,
        Err(k) => !(numeral_value(s, signed) matches Some(n) && lo <= n <= hi) && k
            == int_error_kind(s, lo, hi, signed),
    }
}

/// `int_outcome` for a conversion result whose error must be an `Int` error.
pub open spec fn int_converts(
    s: Seq<char>,
    lo: int,
    hi: int,
    signed: bool,
    r: Result<int, ParseError>,
) -> bool {
    match r {
        Ok(v) => int_outcome(s, lo, hi, signed, Ok(v)),
        Err(e) => e matches ParseError::Int(k) && int_outcome(s, lo, hi, signed, Err(k)),
    }
}

/// Relies on `<isize as FromStr>::from_str`: the grammar and overflow rules of
/// `isize::from_str_radix` in base ten, with the reason taken from `ParseIntError::kind`.
#[verifier::external_body]
fn std_parse_isize(s: &str) -> (r: Result<isize, IntErrorKind>)
    ensures
        int_outcome(
            s@,
            isize::MIN as int,
            isize::MAX as int,
            true,
            match r {
                Ok(v) => Ok(v as int),
                Err(k) => Err(k),
            },
        ),
{
    s.parse::<isize>().map_err(|e| match e.kind() {
        core::num::IntErrorKind::Empty => IntErrorKind::Empty,
        core::num::IntErrorKind::InvalidDigit => IntErrorKind::InvalidDigit,
        core::num::IntErrorKind::PosOverflow => IntErrorKind::PosOverflow,
        core::num::IntErrorKind::NegOverflow => IntErrorKind::NegOverflow,
        core::num::IntErrorKind::Zero => IntErrorKind::Zero,
        _ => IntErrorKind::InvalidDigit,
    })
}

impl<'a> LendingFromStr<'a> for isize {
    open spec fn converts(s: Seq<char>, r: Result<isize, ParseError>) -> bool {
        int_converts(
            s,
            isize::MIN as int,
            isize::MAX as int,
            true,
            match r {
                Ok(v) => Ok(v as int),
                Err(e) => Err(e),
            },
        )
    }

    proof fn converts_determined(s: Seq<char>, r1: Result<isize, ParseError>, r2: Result<isize, ParseError>) {
    }

    fn from_str(s: &'a str) -> (r: Result<isize, ParseError>) {
        match std_parse_isize(s) {
            Ok(v) => Ok(v),
            Err(k) => Err(ParseError::Int(k)),
        }
    }
}

/// Relies on `<i8 as FromStr>::from_str`: the grammar and overflow rules of
/// `i8::from_str_radix` in base ten, with the reason taken from `ParseIntError::kind`.
#[verifier::external_body]
fn std_parse_i8(s: &str) -> (r: Result<i8, IntErrorKind>)
    ensures
        int_outcome(
            s@,
            i8::MIN as int,
            i8::MAX as int,
            true,
            match r {
                Ok(v) => Ok(v as int),
                Err(k) => Err(k),
            },
        ),
{
    s.parse::<i8>().map_err(|e| match e.kind() {
        core::num::IntErrorKind::Empty => IntErrorKind::Empty,
        core::num::IntErrorKind::InvalidDigit => IntErrorKind::InvalidDigit,
        core::num::IntErrorKind::PosOverflow => IntErrorKind::PosOverflow,
        core::num::IntErrorKind::NegOverflow => IntErrorKind::NegOverflow,
        core::num::IntErrorKind::Zero => IntErrorKind::Zero,
        _ => IntErrorKind::InvalidDigit,
    })
}

impl<'a> LendingFromStr<'a> for i8 {
    open spec fn converts(s: Seq<char>, r: Result<i8, ParseError>) -> bool {
        int_converts(
            s,
            i8::MIN as int,
            i8::MAX as int,
            true,
            match r {
                Ok(v) => Ok(v as int),
                Err(e) => Err(e),
            },
        )
    }

    proof fn converts_determined(s: Seq<char>, r1: Result<i8, ParseError>, r2: Result<i8, ParseError>) {
    }

    fn from_str(s: &'a str) -> (r: Result<i8, ParseError>) {
        match std_parse_i8(s) {
            Ok(v) => Ok(v),
            Err(k) => Err(ParseError::Int(k)),
        }
    }
}

/// Relies on `<i16 as FromStr>::from_str`: the grammar and overflow rules of
/// `i16::from_str_radix` in base ten, with the reason taken from `ParseIntError::kind`.
#[verifier::external_body]
fn std_parse_i16(s: &str) -> (r: Result<i16, IntErrorKind>)
    ensures
        int_outcome(
            s@,
            i16::MIN as int,
            i16::MAX as int,
            true,
            match r {
                Ok(v) => Ok(v as int),
                Err(k) => Err(k),
            },
        ),
{
    s.parse::<i16>().map_err(|e| match e.kind() {
        core::num::IntErrorKind::Empty => IntErrorKind::Empty,
        core::num::IntErrorKind::InvalidDigit => IntErrorKind::InvalidDigit,
        core::num::IntErrorKind::PosOverflow => IntErrorKind::PosOverflow,
        core::num::IntErrorKind::NegOverflow => IntErrorKind::NegOverflow,
        core::num::IntErrorKind::Zero => IntErrorKind::Zero,
        _ => IntErrorKind::InvalidDigit,
    })
}

impl<'a> LendingFromStr<'a> for i16 {
    open spec fn converts(s: Seq<char>, r: Result<i16, ParseError>) -> bool {
        int_converts(
            s,
            i16::MIN as int,
            i16::MAX as int,
            true,
            match r {
                Ok(v) => Ok(v as int),
                Err(e) => Err(e),
            },
        )
    }

    proof fn converts_determined(s: Seq<char>, r1: Result<i16, ParseError>, r2: Result<i16, ParseError>) {
    }

    fn from_str(s: &'a str) -> (r: Result<i16, ParseError>) {
        match std_parse_i16(s) {
            Ok(v) => Ok(v),
            Err(k) => Err(ParseError::Int(k)),
        }
    }
}

/// Relies on `<i32 as FromStr>::from_str`: the grammar and overflow rules of
/// `i32::from_str_radix` in base ten, with the reason taken from `ParseIntError::kind`.
#[verifier::external_body]
fn std_parse_i32(s: &str) -> (r: Result<i32, IntErrorKind>)
    ensures
        int_outcome(
            s@,
            i32::MIN as int,
            i32::MAX as int,
            true,
            match r {
                Ok(v) => Ok(v as int),
                Err(k) => Err(k),
            },
        ),
{
    s.parse::<i32>().map_err(|e| match e.kind() {
        core::num::IntErrorKind::Empty => IntErrorKind::Empty,
        core::num::IntErrorKind::InvalidDigit => IntErrorKind::InvalidDigit,
        core::num::IntErrorKind::PosOverflow => IntErrorKind::PosOverflow,
        core::num::IntErrorKind::NegOverflow => IntErrorKind::NegOverflow,
        core::num::IntErrorKind::Zero => IntErrorKind::Zero,
        _ => IntErrorKind::InvalidDigit,
    })
}

impl<'a> LendingFromStr<'a> for i32 {
    open spec fn converts(s: Seq<char>, r: Result<i32, ParseError>) -> bool {
        int_converts(
            s,
            i32::MIN as int,
            i32::MAX as int,
            true,
            match r {
                Ok(v) => Ok(v as int),
                Err(e) => Err(e),
            },
        )
    }

    proof fn converts_determined(s: Seq<char>, r1: Result<i32, ParseError>, r2: Result<i32, ParseError>) {
    }

    fn from_str(s: &'a str) -> (r: Result<i32, ParseError>) {
        match std_parse_i32(s) {
            Ok(v) => Ok(v),
            Err(k) => Err(ParseError::Int(k)),
        }
    }
}

/// Relies on `<i64 as FromStr>::from_str`: the grammar and overflow rules of
/// `i64::from_str_radix` in base ten, with the reason taken from `ParseIntError::kind`.
#[verifier::external_body]
fn std_parse_i64(s: &str) -> (r: Result<i64, IntErrorKind>)
    ensures
        int_outcome(
            s@,
            i64::MIN as int,
            i64::MAX as int,
            true,
            match r {
                Ok(v) => Ok(v as int),
                Err(k) => Err(k),
            },
        ),
{
    s.parse::<i64>().map_err(|e| match e.kind() {
        core::num::IntErrorKind::Empty => IntErrorKind::Empty,
        core::num::IntErrorKind::InvalidDigit => IntErrorKind::InvalidDigit,
        core::num::IntErrorKind::PosOverflow => IntErrorKind::PosOverflow,
        core::num::IntErrorKind::NegOverflow => IntErrorKind::NegOverflow,
        core::num::IntErrorKind::Zero => IntErrorKind::Zero,
        _ => IntErrorKind::InvalidDigit,
    })
}

impl<'a> LendingFromStr<'a> for i64 {
    open spec fn converts(s: Seq<char>, r: Result<i64, ParseError>) -> bool {
        int_converts(
            s,
            i64::MIN as int,
            i64::MAX as int,
            true,
            match r {
                Ok(v) => Ok(v as int),
                Err(e) => Err(e),
            },
        )
    }

    proof fn converts_determined(s: Seq<char>, r1: Result<i64, ParseError>, r2: Result<i64, ParseError>) {
    }

    fn from_str(s: &'a str) -> (r: Result<i64, ParseError>) {
        match std_parse_i64(s) {
            Ok(v) => Ok(v),
            Err(k) => Err(ParseError::Int(k)),
        }
    }
}

/// Relies on `<i128 as FromStr>::from_str`: the grammar and overflow rules of
/// `i128::from_str_radix` in base ten, with the reason taken from `ParseIntError::kind`.
#[verifier::external_body]
fn std_parse_i128(s: &str) -> (r: Result<i128, IntErrorKind>)
    ensures
        int_outcome(
            s@,
            i128::MIN as int,
            i128::MAX as int,
            true,
            match r {
                Ok(v) => Ok(v as int),
                Err(k) => Err(k),
            },
        ),
{
    s.parse::<i128>().map_err(|e| match e.kind() {
        core::num::IntErrorKind::Empty => IntErrorKind::Empty,
        core::num::IntErrorKind::InvalidDigit => IntErrorKind::InvalidDigit,
        core::num::IntErrorKind::PosOverflow => IntErrorKind::PosOverflow,
        core::num::IntErrorKind::NegOverflow => IntErrorKind::NegOverflow,
        core::num::IntErrorKind::Zero => IntErrorKind::Zero,
        _ => IntErrorKind::InvalidDigit,
    })
}

impl<'a> LendingFromStr<'a> for i128 {
    open spec fn converts(s: Seq<char>, r: Result<i128, ParseError>) -> bool {
        int_converts(
            s,
            i128::MIN as int,
            i128::MAX as int,
            true,
            match r {
                Ok(v) => Ok(v as int),
                Err(e) => Err(e),
            },
        )
    }

    proof fn converts_determined(s: Seq<char>, r1: Result<i128, ParseError>, r2: Result<i128, ParseError>) {
    }

    fn from_str(s: &'a str) -> (r: Result<i128, ParseError>) {
        match std_parse_i128(s) {
            Ok(v) => Ok(v),
            Err(k) => Err(ParseError::Int(k)),
        }
    }
}

/// Relies on `<usize as FromStr>::from_str`: the grammar and overflow rules of
/// `usize::from_str_radix` in base ten, with the reason taken from `ParseIntError::kind`.
#[verifier::external_body]
fn std_parse_usize(s: &str) -> (r: Result<usize, IntErrorKind>)
    ensures
        int_outcome(
            s@,
            usize::MIN as int,
            usize::MAX as int,
            false,
            match r {
                Ok(v) => Ok(v as int),
                Err(k) => Err(k),
            },
        ),
{
    s.parse::<usize>().map_err(|e| match e.kind() {
        core::num::IntErrorKind::Empty => IntErrorKind::Empty,
        core::num::IntErrorKind::InvalidDigit => IntErrorKind::InvalidDigit,
        core::num::IntErrorKind::PosOverflow => IntErrorKind::PosOverflow,
        core::num::IntErrorKind::NegOverflow => IntErrorKind::NegOverflow,
        core::num::IntErrorKind::Zero => IntErrorKind::Zero,
        _ => IntErrorKind::InvalidDigit,
    })
}

impl<'a> LendingFromStr<'a> for usize {
    open spec fn converts(s: Seq<char>, r: Result<usize, ParseError>) -> bool {
        int_converts(
            s,
            usize::MIN as int,
            usize::MAX as int,
            false,
            match r {
                Ok(v) => Ok(v as int),
                Err(e) => Err(e),
            },
        )
    }

    proof fn converts_determined(s: Seq<char>, r1: Result<usize, ParseError>, r2: Result<usize, ParseError>) {
    }

    fn from_str(s: &'a str) -> (r: Result<usize, ParseError>) {
        match std_parse_usize(s) {
            Ok(v) => Ok(v),
            Err(k) => Err(ParseError::Int(k)),
        }
    }
}

/// Relies on `<u8 as FromStr>::from_str`: the grammar and overflow rules of
/// `u8::from_str_radix` in base ten, with the reason taken from `ParseIntError::kind`.
#[verifier::external_body]
fn std_parse_u8(s: &str) -> (r: Result<u8, IntErrorKind>)
    ensures
        int_outcome(
            s@,
            u8::MIN as int,
            u8::MAX as int,
            false,
            match r {
                Ok(v) => Ok(v as int),
                Err(k) => Err(k),
            },
        ),
{
    s.parse::<u8>().map_err(|e| match e.kind() {
        core::num::IntErrorKind::Empty => IntErrorKind::Empty,
        core::num::IntErrorKind::InvalidDigit => IntErrorKind::InvalidDigit,
        core::num::IntErrorKind::PosOverflow => IntErrorKind::PosOverflow,
        core::num::IntErrorKind::NegOverflow => IntErrorKind::NegOverflow,
        core::num::IntErrorKind::Zero => IntErrorKind::Zero,
        _ => IntErrorKind::InvalidDigit,
    })
}

impl<'a> LendingFromStr<'a> for u8 {
    open spec fn converts(s: Seq<char>, r: Result<u8, ParseError>) -> bool {
        int_converts(
            s,
            u8::MIN as int,
            u8::MAX as int,
            false,
            match r {
                Ok(v) => Ok(v as int),
                Err(e) => Err(e),
            },
        )
    }

    proof fn converts_determined(s: Seq<char>, r1: Result<u8, ParseError>, r2: Result<u8, ParseError>) {
    }

    fn from_str(s: &'a str) -> (r: Result<u8, ParseError>) {
        match std_parse_u8(s) {
            Ok(v) => Ok(v),
            Err(k) => Err(ParseError::Int(k)),
        }
    }
}

/// Relies on `<u16 as FromStr>::from_str`: the grammar and overflow rules of
/// `u16::from_str_radix` in base ten, with the reason taken from `ParseIntError::kind`.
#[verifier::external_body]
fn std_parse_u16(s: &str) -> (r: Result<u16, IntErrorKind>)
    ensures
        int_outcome(
            s@,
            u16::MIN as int,
            u16::MAX as int,
            false,
            match r {
                Ok(v) => Ok(v as int),
                Err(k) => Err(k),
            },
        ),
{
    s.parse::<u16>().map_err(|e| match e.kind() {
        core::num::IntErrorKind::Empty => IntErrorKind::Empty,
        core::num::IntErrorKind::InvalidDigit => IntErrorKind::InvalidDigit,
        core::num::IntErrorKind::PosOverflow => IntErrorKind::PosOverflow,
        core::num::IntErrorKind::NegOverflow => IntErrorKind::NegOverflow,
        core::num::IntErrorKind::Zero => IntErrorKind::Zero,
        _ => IntErrorKind::InvalidDigit,
    })
}

impl<'a> LendingFromStr<'a> for u16 {
    open spec fn converts(s: Seq<char>, r: Result<u16, ParseError>) -> bool {
        int_converts(
            s,
            u16::MIN as int,
            u16::MAX as int,
            false,
            match r {
                Ok(v) => Ok(v as int),
                Err(e) => Err(e),
            },
        )
    }

    proof fn converts_determined(s: Seq<char>, r1: Result<u16, ParseError>, r2: Result<u16, ParseError>) {
    }

    fn from_str(s: &'a str) -> (r: Result<u16, ParseError>) {
        match std_parse_u16(s) {
            Ok(v) => Ok(v),
            Err(k) => Err(ParseError::Int(k)),
        }
    }
}

/// Relies on `<u32 as FromStr>::from_str`: the grammar and overflow rules of
/// `u32::from_str_radix` in base ten, with the reason taken from `ParseIntError::kind`.
#[verifier::external_body]
fn std_parse_u32(s: &str) -> (r: Result<u32, IntErrorKind>)
    ensures
        int_outcome(
            s@,
            u32::MIN as int,
            u32::MAX as int,
            false,
            match r {
                Ok(v) => Ok(v as int),
                Err(k) => Err(k),
            },
        ),
{
    s.parse::<u32>().map_err(|e| match e.kind() {
        core::num::IntErrorKind::Empty => IntErrorKind::Empty,
        core::num::IntErrorKind::InvalidDigit => IntErrorKind::InvalidDigit,
        core::num::IntErrorKind::PosOverflow => IntErrorKind::PosOverflow,
        core::num::IntErrorKind::NegOverflow => IntErrorKind::NegOverflow,
        core::num::IntErrorKind::Zero => IntErrorKind::Zero,
        _ => IntErrorKind::InvalidDigit,
    })
}

impl<'a> LendingFromStr<'a> for u32 {
    open spec fn converts(s: Seq<char>, r: Result<u32, ParseError>) -> bool {
        int_converts(
            s,
            u32::MIN as int,
            u32::MAX as int,
            false,
            match r {
                Ok(v) => Ok(v as int),
                Err(e) => Err(e),
            },
        )
    }

    proof fn converts_determined(s: Seq<char>, r1: Result<u32, ParseError>, r2: Result<u32, ParseError>) {
    }

    fn from_str(s: &'a str) -> (r: Result<u32, ParseError>) {
        match std_parse_u32(s) {
            Ok(v) => Ok(v),
            Err(k) => Err(ParseError::Int(k)),
        }
    }
}

/// Relies on `<u64 as FromStr>::from_str`: the grammar and overflow rules of
/// `u64::from_str_radix` in base ten, with the reason taken from `ParseIntError::kind`.
#[verifier::external_body]
fn std_parse_u64(s: &str) -> (r: Result<u64, IntErrorKind>)
    ensures
        int_outcome(
            s@,
            u64::MIN as int,
            u64::MAX as int,
            false,
            match r {
                Ok(v) => Ok(v as int),
                Err(k) => Err(k),
            },
        ),
{
    s.parse::<u64>().map_err(|e| match e.kind() {
        core::num::IntErrorKind::Empty => IntErrorKind::Empty,
        core::num::IntErrorKind::InvalidDigit => IntErrorKind::InvalidDigit,
        core::num::IntErrorKind::PosOverflow => IntErrorKind::PosOverflow,
        core::num::IntErrorKind::NegOverflow => IntErrorKind::NegOverflow,
        core::num::IntErrorKind::Zero => IntErrorKind::Zero,
        _ => IntErrorKind::InvalidDigit,
    })
}

impl<'a> LendingFromStr<'a> for u64 {
    open spec fn converts(s: Seq<char>, r: Result<u64, ParseError>) -> bool {
        int_converts(
            s,
            u64::MIN as int,
            u64::MAX as int,
            false,
            match r {
                Ok(v) => Ok(v as int),
                Err(e) => Err(e),
            },
        )
    }

    proof fn converts_determined(s: Seq<char>, r1: Result<u64, ParseError>, r2: Result<u64, ParseError>) {
    }

    fn from_str(s: &'a str) -> (r: Result<u64, ParseError>) {
        match std_parse_u64(s) {
            Ok(v) => Ok(v),
            Err(k) => Err(ParseError::Int(k)),
        }
    }
}

/// Relies on `<u128 as FromStr>::from_str`: the grammar and overflow rules of
/// `u128::from_str_radix` in base ten, with the reason taken from `ParseIntError::kind`.
#[verifier::external_body]
fn std_parse_u128(s: &str) -> (r: Result<u128, IntErrorKind>)
    ensures
        int_outcome(
            s@,
            u128::MIN as int,
            u128::MAX as int,
            false,
            match r {
                Ok(v) => Ok(v as int),
                Err(k) => Err(k),
            },
        ),
{
    s.parse::<u128>().map_err(|e| match e.kind() {
        core::num::IntErrorKind::Empty => IntErrorKind::Empty,
        core::num::IntErrorKind::InvalidDigit => IntErrorKind::InvalidDigit,
        core::num::IntErrorKind::PosOverflow => IntErrorKind::PosOverflow,
        core::num::IntErrorKind::NegOverflow => IntErrorKind::NegOverflow,
        core::num::IntErrorKind::Zero => IntErrorKind::Zero,
        _ => IntErrorKind::InvalidDigit,
    })
}

impl<'a> LendingFromStr<'a> for u128 {
    open spec fn converts(s: Seq<char>, r: Result<u128, ParseError>) -> bool {
        int_converts(
            s,
            u128::MIN as int,
            u128::MAX as int,
            false,
            match r {
                Ok(v) => Ok(v as int),
                Err(e) => Err(e),
            },
        )
    }

    proof fn converts_determined(s: Seq<char>, r1: Result<u128, ParseError>, r2: Result<u128, ParseError>) {
    }

    fn from_str(s: &'a str) -> (r: Result<u128, ParseError>) {
        match std_parse_u128(s) {
            Ok(v) => Ok(v),
            Err(k) => Err(ParseError::Int(k)),
        }
    }
}

#[verifier::external_type_specification]
#[verifier::external_body]
pub struct ExPathBuf(std::path::PathBuf);

/// The text that a path holds.
pub uninterp spec fn path_text(p: std::path::PathBuf) -> Seq<char>;

/// Relies on `<PathBuf as From<&str>>::from`: it copies the text into a path and never fails.
#[verifier::external_body]
fn path_from(s: &str) -> (r: std::path::PathBuf)
    ensures
        path_text(r) == s@,
{
    std::path::PathBuf::from(s)
}

impl<'a> LendingFromStr<'a> for std::path::PathBuf {
    open spec fn converts(s: Seq<char>, r: Result<std::path::PathBuf, ParseError>) -> bool {
        r matches Ok(p) && path_text(p) == s
    }

    proof fn converts_determined(s: Seq<char>, r1: Result<std::path::PathBuf, ParseError>, r2: Result<std::path::PathBuf, ParseError>) {
    }

    fn from_str(s: &'a str) -> (r: Result<std::path::PathBuf, ParseError>) {
        Ok(path_from(s))
    }
}

/// Lets a text be converted with `text.lending_parse::<T>()`; only `str` has it.
pub trait ExtParseStr: Sealed + View<V = Seq<char>> {
    /// Converts this text into any type that has `LendingFromStr`.
    fn lending_parse<'a, F: LendingFromStr<'a>>(&'a self) -> (r: Result<F, ParseError>)
        ensures
            F::converts(self@, r),
    ;
}

impl ExtParseStr for str {
    fn lending_parse<'a, F: LendingFromStr<'a>>(&'a self) -> (r: Result<F, ParseError>) {
        F::from_str(self)
    }
}

} // verus!

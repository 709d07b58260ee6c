use prse::parse_error::{float_error, CharErrorKind, FloatErrorKind, IntErrorKind};
use prse::{ExtParseStr, LendingFromStr, ParseError};

#[test]
fn identity_keeps_the_same_slice() {
    let input = "some text";
    let r: &str = input.lending_parse().unwrap();
    assert_eq!(r, input);
    assert_eq!(r.as_ptr(), input.as_ptr());
    let empty: &str = "".lending_parse().unwrap();
    assert_eq!(empty, "");
}

#[test]
fn owned_string_copies_the_text() {
    let r: String = "hello".lending_parse().unwrap();
    assert_eq!(r, "hello");
    let r: String = <String as LendingFromStr>::from_str("").unwrap();
    assert_eq!(r, "");
}

#[test]
fn integer_forty_two() {
    assert_eq!("42".lending_parse::<i32>(), Ok(42));
}

#[test]
fn integer_refused_text() {
    let r = "abc".lending_parse::<i32>();
    assert_eq!(r, Err(ParseError::Int(IntErrorKind::InvalidDigit)));
    assert_eq!(r.unwrap_err().to_string(), "unable to parse as an integer");
}

#[test]
fn integer_signs_and_ranges() {
    assert_eq!("-7".lending_parse::<i8>(), Ok(-7));
    assert_eq!("+5".lending_parse::<u8>(), Ok(5));
    assert_eq!("-5".lending_parse::<u8>(), Err(ParseError::Int(IntErrorKind::InvalidDigit)));
    assert_eq!("256".lending_parse::<u8>(), Err(ParseError::Int(IntErrorKind::PosOverflow)));
    assert_eq!("-129".lending_parse::<i8>(), Err(ParseError::Int(IntErrorKind::NegOverflow)));
    assert_eq!("-128".lending_parse::<i8>(), Ok(-128));
    assert_eq!("".lending_parse::<u32>(), Err(ParseError::Int(IntErrorKind::Empty)));
    assert_eq!("+".lending_parse::<i64>(), Err(ParseError::Int(IntErrorKind::InvalidDigit)));
    assert_eq!(" 1".lending_parse::<i16>(), Err(ParseError::Int(IntErrorKind::InvalidDigit)));
    assert_eq!("65535".lending_parse::<u16>(), Ok(65535));
    assert_eq!("4294967295".lending_parse::<u32>(), Ok(u32::MAX));
    assert_eq!("18446744073709551615".lending_parse::<u64>(), Ok(u64::MAX));
    assert_eq!("-9223372036854775808".lending_parse::<i64>(), Ok(i64::MIN));
    assert_eq!(
        "340282366920938463463374607431768211455".lending_parse::<u128>(),
        Ok(u128::MAX)
    );
    assert_eq!(
        "-170141183460469231731687303715884105728".lending_parse::<i128>(),
        Ok(i128::MIN)
    );
    assert_eq!("12".lending_parse::<usize>(), Ok(12usize));
    assert_eq!("-12".lending_parse::<isize>(), Ok(-12isize));
}

#[test]
fn booleans() {
    assert_eq!("true".lending_parse::<bool>(), Ok(true));
    assert_eq!("false".lending_parse::<bool>(), Ok(false));
    let r = "True".lending_parse::<bool>();
    assert_eq!(r, Err(ParseError::Bool));
    assert_eq!(r.unwrap_err().to_string(), "unable to parse as a boolean");
}

#[test]
fn characters() {
    assert_eq!("a".lending_parse::<char>(), Ok('a'));
    assert_eq!("é".lending_parse::<char>(), Ok('é'));
    assert_eq!("".lending_parse::<char>(), Err(ParseError::Char(CharErrorKind::EmptyString)));
    let r = "ab".lending_parse::<char>();
    assert_eq!(r, Err(ParseError::Char(CharErrorKind::TooManyChars)));
    assert_eq!(r.unwrap_err().to_string(), "unable to parse as a character");
}

#[test]
fn from_str_through_the_trait() {
    assert_eq!(<i32 as LendingFromStr>::from_str("-3"), Ok(-3));
    assert_eq!(<&str as LendingFromStr>::from_str("x"), Ok("x"));
}

#[test]
fn paths_copy_the_text() {
    let p: std::path::PathBuf = "dir/file.txt".lending_parse().unwrap();
    assert_eq!(p, std::path::PathBuf::from("dir/file.txt"));
}

#[test]
fn float_error_kinds() {
    assert_eq!(float_error(""), ParseError::Float(FloatErrorKind::Empty));
    assert_eq!(float_error("1.2.3"), ParseError::Float(FloatErrorKind::Invalid));
}

#[test]
fn overflow_before_a_stray_character() {
    assert_eq!("300a".lending_parse::<u8>(), Err(ParseError::Int(IntErrorKind::PosOverflow)));
    assert_eq!("-300a".lending_parse::<i8>(), Err(ParseError::Int(IntErrorKind::NegOverflow)));
    assert_eq!("30a".lending_parse::<u8>(), Err(ParseError::Int(IntErrorKind::InvalidDigit)));
}

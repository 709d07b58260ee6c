use prse::parse_error::{decimal, AddrKind, FloatErrorKind, IntErrorKind};
use prse::{add_err_multi_context, try_parse_context, unwrap_parse, ParseError};

#[test]
fn check_impl_traits() {
    fn is_send<T: Send>() {}
    fn is_sync<T: Sync>() {}

    is_send::<ParseError>();
    is_sync::<ParseError>();
}

#[test]
fn single_item_context() {
    let r = try_parse_context::<i32>("abc", "x=abc,y=5");
    assert_eq!(
        r,
        Err(ParseError::Context {
            full_string: "x=abc,y=5".to_string(),
            failed_item: "abc".to_string(),
            error: Box::new(ParseError::Int(IntErrorKind::InvalidDigit)),
        })
    );
    assert_eq!(
        r.unwrap_err().to_string(),
        "unable to parse \"abc\" when parsing \"x=abc,y=5\":\n\tunable to parse as an integer"
    );
}

#[test]
fn single_item_context_success_untouched() {
    assert_eq!(try_parse_context::<i32>("5", "x=abc,y=5"), Ok(5));
    assert_eq!(try_parse_context::<&str>("abc", "x=abc,y=5"), Ok("abc"));
}

#[test]
fn repetition_context() {
    let inner = "x".parse::<i32>().map_err(|_| ParseError::Int(IntErrorKind::InvalidDigit));
    let r = add_err_multi_context(inner, "1,2,x", "x");
    assert_eq!(
        r,
        Err(ParseError::MultiContext {
            multi_string: "1,2,x".to_string(),
            failed_string: "x".to_string(),
            error: Box::new(ParseError::Int(IntErrorKind::InvalidDigit)),
        })
    );
    assert_eq!(
        r.unwrap_err().to_string(),
        "unable to parse multi-item \"x\" when parsing \"1,2,x\":\n\tunable to parse as an integer"
    );
}

#[test]
fn repetition_context_success_untouched() {
    let r: Result<u8, ParseError> = Ok(7);
    assert_eq!(add_err_multi_context(r, "1,2,7", "7"), Ok(7));
}

#[test]
fn wrapping_keeps_the_cause() {
    let first = try_parse_context::<u8>("300", "a=300").unwrap_err();
    let second = add_err_multi_context::<u8>(Err(first), "a=300;b=1", "a=300").unwrap_err();
    let layer = second.source().unwrap();
    let leaf = layer.source().unwrap();
    assert_eq!(*leaf, ParseError::Int(IntErrorKind::PosOverflow));
    assert!(leaf.source().is_none());
    assert!(matches!(layer, ParseError::Context { .. }));
}

#[test]
fn array_arity() {
    let e = ParseError::Array { expected: 3, found: 2 };
    assert_eq!(e.to_string(), "invalid number of items (expected to find 3, found 2)");
    let e = ParseError::Array { expected: 255, found: 10 };
    assert_eq!(e.to_string(), "invalid number of items (expected to find 255, found 10)");
}

#[test]
fn decimal_numerals() {
    assert_eq!(decimal(0), "0");
    assert_eq!(decimal(9), "9");
    assert_eq!(decimal(10), "10");
    assert_eq!(decimal(100), "100");
    assert_eq!(decimal(207), "207");
}

#[test]
fn literal_rendering() {
    let e = ParseError::Literal { expected: "x".to_string(), found: "y\"z".to_string() };
    assert_eq!(
        e.to_string(),
        "invalid literal match (expected to find \"x\", found \"y\\\"z\")"
    );
}

#[test]
fn free_form_error() {
    let e = ParseError::new("custom reason");
    assert_eq!(e, ParseError::Other("custom reason".to_string()));
    assert_eq!(e.to_string(), "custom reason");
    let n = ParseError::new(17);
    assert_eq!(n, ParseError::Other("17".to_string()));
}

#[test]
fn literal_equality_and_variants() {
    let a = ParseError::Literal { expected: "x".to_string(), found: "y".to_string() };
    let b = ParseError::Literal { expected: "x".to_string(), found: "y".to_string() };
    let c = ParseError::Literal { expected: "x".to_string(), found: "z".to_string() };
    let d = ParseError::Array { expected: 1, found: 2 };
    assert!(a == b);
    assert!(a != c);
    assert!(a != d);
    assert!(d != a);
}

#[test]
fn dyn_never_equal() {
    let a = ParseError::Dyn("boom".to_string());
    assert!(a != a);
    assert!(a != ParseError::Dyn("boom".to_string()));
    assert_eq!(a.to_string(), "unable to parse into type");
}

#[test]
fn other_renderings_and_conversions() {
    assert_eq!(ParseError::from(FloatErrorKind::Invalid).to_string(), "unable to parse as a float");
    assert_eq!(ParseError::from(AddrKind::Ipv4).to_string(), "unable to parse as an address");
    assert_eq!(ParseError::from(IntErrorKind::Empty), ParseError::Int(IntErrorKind::Empty));
    assert!(ParseError::Float(FloatErrorKind::Empty) != ParseError::Float(FloatErrorKind::Invalid));
}

#[test]
fn nested_context_equality() {
    let a = try_parse_context::<i32>("q", "k=q").unwrap_err();
    let b = try_parse_context::<i32>("q", "k=q").unwrap_err();
    let c = try_parse_context::<i32>("q", "k= q").unwrap_err();
    assert!(a == b);
    assert!(a != c);
}

#[test]
fn unwrap_of_success() {
    assert_eq!(unwrap_parse::<u16>(Ok(9)), 9);
}

#[test]
fn item_context_wrapping() {
    let r: Result<u8, ParseError> = Err(ParseError::Bool);
    assert_eq!(
        prse::add_err_context(r, "a=b", "b"),
        Err(ParseError::Context {
            full_string: "a=b".to_string(),
            failed_item: "b".to_string(),
            error: Box::new(ParseError::Bool),
        })
    );
    let ok: Result<u8, ParseError> = Ok(3);
    assert_eq!(prse::add_err_context(ok, "a=3", "3"), Ok(3));
}

#[test]
fn context_of_a_context_is_not_flattened() {
    let inner = try_parse_context::<i32>("q", "k=q").unwrap_err();
    let outer = prse::add_err_context::<i32>(Err(inner), "k=q", "q").unwrap_err();
    let once = outer.source().unwrap();
    assert!(matches!(once, ParseError::Context { .. }));
    assert_eq!(*once.source().unwrap(), ParseError::Int(IntErrorKind::InvalidDigit));
}

#[test]
fn from_unit() {
    let e = ParseError::from(());
    assert_eq!(e, ParseError::Other("Error: ()".to_string()));
    assert_eq!(e.to_string(), "Error: ()");
}

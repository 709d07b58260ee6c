use vstd::prelude::*;
use vstd::string::*;

use crate::lending_parse::{ExtParseStr, LendingFromStr};

verus! {

/// Why a text was refused as an integer.
#[derive(Debug, Clone, Copy, PartialEq, Eq, Structural)]
pub enum IntErrorKind {
    /// The text was empty.
    Empty,
    /// The text held a character that is not a digit in its place.
    InvalidDigit,
    /// The value is too large for the target type.
    PosOverflow,
    /// The value is too small for the target type.
    NegOverflow,
    /// The value was zero where the target type excludes it.
    Zero,
}

/// Why a text was refused as a character.
#[derive(Debug, Clone, Copy, PartialEq, Eq, Structural)]
pub enum CharErrorKind {
    /// The text was empty.
    EmptyString,
    /// The text held more than one character.
    TooManyChars,
}

/// Why a text was refused as a floating-point number.
#[derive(Debug, Clone, Copy, PartialEq, Eq, Structural)]
pub enum FloatErrorKind {
    /// The text was empty.
    Empty,
    /// The text is not a floating-point literal.
    Invalid,
}

/// Which network-address form a text was refused as.
#[derive(Debug, Clone, Copy, PartialEq, Eq, Structural)]
pub enum AddrKind {
    Ip,
    Ipv4,
    Ipv6,
    Socket,
    SocketV4,
    SocketV6,
}

/// The error returned when a text cannot be converted into the requested type.
#[derive(Debug)]
#[allow(inconsistent_fields)]
pub enum ParseError {
    /// An integer could not be parsed.
    Int(IntErrorKind),
    /// A boolean could not be parsed.
    Bool,
    /// A character could not be parsed.
    Char(CharErrorKind),
    /// A floating-point number could not be parsed.
    Float(FloatErrorKind),
    /// A network address could not be parsed.
    Addr(AddrKind),
    /// An error from outside this taxonomy, kept as its message.
    /// It never compares equal to any error, itself included.
    Dyn(String),
    /// A literal token expected `expected` but the input held `found`.
    Literal { expected: String, found: String },
    /// A fixed-size collection expected `expected` items but `found` were present.
    Array { expected: u8, found: u8 },
    /// A free-form error message.
    Other(String),
    /// A failure while parsing one element `failed_string` of the repeated group `multi_string`.
    MultiContext { multi_string: String, failed_string: String, error: Box<ParseError> },
    /// A failure while parsing the item `failed_item` of the whole input `full_string`.
    Context { full_string: String, failed_item: String, error: Box<ParseError> },
}

/// Structural equality: same variant and equal payloads, recursively through wrapped causes;
/// `Dyn` equals nothing.
pub open spec fn errors_equal(a: ParseError, b: ParseError) -> bool
    decreases a,
{
    match a {
        ParseError::Int(x) => b matches ParseError::Int(y) && x == y,
        ParseError::Bool => b is Bool,
        ParseError::Char(x) => b matches ParseError::Char(y) && x == y,
        ParseError::Float(x) => b matches ParseError::Float(y) && x == y,
        ParseError::Addr(x) => b matches ParseError::Addr(y) && x == y,
        ParseError::Dyn(_) => false,
        ParseError::Literal { expected, found } => b matches ParseError::Literal {
            expected: e2,
            found: f2,
        } && expected@ == e2@ && found@ == f2@,
        ParseError::Array { expected, found } => b matches ParseError::Array {
            expected: e2,
            found: f2,
        } && expected == e2 && found == f2,
        ParseError::Other(m) => b matches ParseError::Other(m2) && m@ == m2@,
        ParseError::MultiContext { multi_string, failed_string, error } => match b {
            ParseError::MultiContext { multi_string: m2, failed_string: f2, error: e2 } => {
                multi_string@ == m2@ && failed_string@ == f2@ && errors_equal(*error, *e2)
            },
            _ => false,
        },
        ParseError::Context { full_string, failed_item, error } => match b {
            ParseError::Context { full_string: s2, failed_item: f2, error: e2 } => {
                full_string@ == s2@ && failed_item@ == f2@ && errors_equal(*error, *e2)
            },
            _ => false,
        },
    }
}

fn errors_eq(a: &ParseError, b: &ParseError) -> (r: bool)
    ensures
        r == errors_equal(*a, *b),
    decreases a,
{
    match (a, b) {
        (ParseError::Int(x), ParseError::Int(y)) => *x == *y,
        (ParseError::Bool, ParseError::Bool) => true,
        (ParseError::Char(x), ParseError::Char(y)) => *x == *y,
        (ParseError::Float(x), ParseError::Float(y)) => *x == *y,
        (ParseError::Addr(x), ParseError::Addr(y)) => *x == *y,
        (
            ParseError::Literal { expected: lx, found: ly },
            ParseError::Literal { expected: rx, found: ry },
        ) => *lx == *rx && *ly == *ry,
        (
            ParseError::Array { expected: lx, found: ly },
            ParseError::Array { expected: rx, found: ry },
        ) => *lx == *rx && *ly == *ry,
        (ParseError::Other(x), ParseError::Other(y)) => *x == *y,
        (
            ParseError::MultiContext { multi_string: lm, failed_string: lf, error: le },
            ParseError::MultiContext { multi_string: rm, failed_string: rf, error: re },
        ) => *lm == *rm && *lf == *rf && errors_eq(&**le, &**re),
        (
            ParseError::Context { full_string: ls, failed_item: lf, error: le },
            ParseError::Context { full_string: rs, failed_item: rf, error: re },
        ) => *ls == *rs && *lf == *rf && errors_eq(&**le, &**re),
        _ => false,
    }
}

impl PartialEq for ParseError {
    fn eq(&self, other: &ParseError) -> (r: bool) {
        errors_eq(self, other)
    }
}

impl vstd::std_specs::cmp::PartialEqSpecImpl for ParseError {
    open spec fn obeys_eq_spec() -> bool {
        true
    }

    open spec fn eq_spec(&self, other: &ParseError) -> bool {
        errors_equal(*self, *other)
    }
}

/// The quoted, escaped form of a text as `Debug` writes it.
pub uninterp spec fn debug_text(s: Seq<char>) -> Seq<char>;

/// Relies on `<str as Debug>::fmt`: the quoted and escaped form of the text, which depends
/// on the text alone.
#[verifier::external_body]
fn debug_quoted(s: &str) -> (r: String)
    ensures
        r@ == debug_text(s@),
{
    format!("{:?}", s)
}

/// The decimal digit for `d` (below ten).
pub open spec fn digit_char(d: nat) -> char {
    if d == 0 {
        '0'
    } else if d == 1 {
        '1'
    } else if d == 2 {
        '2'
    } else if d == 3 {
        '3'
    } else if d == 4 {
        '4'
    } else if d == 5 {
        '5'
    } else if d == 6 {
        '6'
    } else if d == 7 {
        '7'
    } else if d == 8 {
        '8'
    } else {
        '9'
    }
}

/// The decimal numeral of `n`, without leading zeros.
pub open spec fn decimal_text(n: nat) -> Seq<char>
    decreases n,
{
    if n < 10 {
        seq![digit_char(n)]
    } else {
        decimal_text(n / 10) + seq![digit_char(n % 10)]
    }
}

fn digit_str(d: u8) -> (r: &'static str)
    requires
        d < 10,
    ensures
        r@ == seq![digit_char(d as nat)],
{
    proof {
        reveal_strlit("0");
        reveal_strlit("1");
        reveal_strlit("2");
        reveal_strlit("3");
        reveal_strlit("4");
        reveal_strlit("5");
        reveal_strlit("6");
        reveal_strlit("7");
        reveal_strlit("8");
        reveal_strlit("9");
    }
    match d {
        0 => "0",
        1 => "1",
        2 => "2",
        3 => "3",
        4 => "4",
        5 => "5",
        6 => "6",
        7 => "7",
        8 => "8",
        _ => "9",
    }
}

/// Writes `n` in decimal.
pub fn decimal(n: u8) -> (r: String)
    ensures
        r@ == decimal_text(n as nat),
{
    let mut r = String::new();
    if n >= 100 {
        r.append(digit_str(n / 100));
    }
    if n >= 10 {
        r.append(digit_str((n / 10) % 10));
    }
    r.append(digit_str(n % 10));
    proof {
        let k = n as nat;
        if k >= 100 {
            assert(decimal_text(k / 100) == seq![digit_char(k / 100)]);
            assert(decimal_text(k / 10) == decimal_text(k / 10 / 10) + seq![digit_char((k / 10) % 10)]);
            assert(k / 10 / 10 == k / 100);
        } else if k >= 10 {
            assert(decimal_text(k / 10) == seq![digit_char(k / 10)]);
        }
    }
    r
}

/// The one-line (or, through wrapped causes, multi-line) message of an error.
pub open spec fn render(e: ParseError) -> Seq<char>
    decreases e,
{
    match e {
        ParseError::Int(_) => "unable to parse as an integer"@,
        ParseError::Bool => "unable to parse as a boolean"@,
        ParseError::Char(_) => "unable to parse as a character"@,
        ParseError::Float(_) => "unable to parse as a float"@,
        ParseError::Addr(_) => "unable to parse as an address"@,
        ParseError::Dyn(_) => "unable to parse into type"@,
        ParseError::Literal { expected, found } => "invalid literal match (expected to find "@
            + debug_text(expected@) + ", found "@ + debug_text(found@) + ")"@,
        ParseError::Array { expected, found } => "invalid number of items (expected to find "@
            + decimal_text(expected as nat) + ", found "@ + decimal_text(found as nat) + ")"@,
        ParseError::Other(message) => message@,
        ParseError::MultiContext { multi_string, failed_string, error } =>
            "unable to parse multi-item \""@ + failed_string@ + "\" when parsing \""@
            + multi_string@ + "\":\n\t"@ + render(*error),
        ParseError::Context { full_string, failed_item, error } => "unable to parse \""@
            + failed_item@ + "\" when parsing \""@ + full_string@ + "\":\n\t"@ + render(*error),
    }
}

/// The error that a context layer wraps, if this error is one.
pub open spec fn cause(e: ParseError) -> Option<ParseError> {
    match e {
        ParseError::MultiContext { error, .. } => Some(*error),
        ParseError::Context { error, .. } => Some(*error),
        _ => None,
    }
}

/// How many context layers stand above the deepest cause.
pub open spec fn context_depth(e: ParseError) -> nat
    decreases e,
{
    match e {
        ParseError::MultiContext { error, .. } => context_depth(*error) + 1,
        ParseError::Context { error, .. } => context_depth(*error) + 1,
        _ => 0,
    }
}

/// The deepest cause: the first error down the chain that is no context layer.
pub open spec fn root_cause(e: ParseError) -> ParseError
    decreases e,
{
    match e {
        ParseError::MultiContext { error, .. } => root_cause(*error),
        ParseError::Context { error, .. } => root_cause(*error),
        _ => e,
    }
}

/// Holds when no `Dyn` error stands anywhere in the chain.
pub open spec fn comparable(e: ParseError) -> bool
    decreases e,
{
    match e {
        ParseError::Dyn(_) => false,
        ParseError::MultiContext { error, .. } => comparable(*error),
        ParseError::Context { error, .. } => comparable(*error),
        _ => true,
    }
}

impl ParseError {
    /// Builds an `Other` error from anything that can be displayed.
    pub fn new<T: core::fmt::Display>(message: T) -> (r: ParseError)
        ensures
            r matches ParseError::Other(m) && to_string_from_display_ensures::<T>(&message, m),
    {
        ParseError::Other(message.to_string())
    }

    /// The error that this one wraps, for the two context variants.
    pub fn source(&self) -> (r: Option<&ParseError>)
        ensures
            match r {
                Some(inner) => cause(*self) == Some(*inner),
                None => cause(*self) is None,
            },
    {
        match self {
            ParseError::MultiContext { error, .. } => Some(&**error),
            ParseError::Context { error, .. } => Some(&**error),
            _ => None,
        }
    }

    /// Renders the error as text, wrapped causes included.
    pub fn to_string(&self) -> (r: String)
        ensures
            r@ == render(*self),
        decreases self,
    {
        match self {
            ParseError::Int(_) => "unable to parse as an integer".to_owned(),
            ParseError::Bool => "unable to parse as a boolean".to_owned(),
            ParseError::Char(_) => "unable to parse as a character".to_owned(),
            ParseError::Float(_) => "unable to parse as a float".to_owned(),
            ParseError::Addr(_) => "unable to parse as an address".to_owned(),
            ParseError::Dyn(_) => "unable to parse into type".to_owned(),
            ParseError::Literal { expected, found } => {
                let mut r = "invalid literal match (expected to find ".to_owned();
                r.append(debug_quoted(expected.as_str()).as_str());
                r.append(", found ");
                r.append(debug_quoted(found.as_str()).as_str());
                r.append(")");
                r
            },
            ParseError::Array { expected, found } => {
                let mut r = "invalid number of items (expected to find ".to_owned();
                r.append(decimal(*expected).as_str());
                r.append(", found ");
                r.append(decimal(*found).as_str());
                r.append(")");
                r
            },
            ParseError::Other(message) => message.clone(),
            ParseError::MultiContext { multi_string, failed_string, error } => {
                let mut r = "unable to parse multi-item \"".to_owned();
                r.append(failed_string.as_str());
                r.append("\" when parsing \"");
                r.append(multi_string.as_str());
                r.append("\":\n\t");
                r.append(error.to_string().as_str());
                r
            },
            ParseError::Context { full_string, failed_item, error } => {
                let mut r = "unable to parse \"".to_owned();
                r.append(failed_item.as_str());
                r.append("\" when parsing \"");
                r.append(full_string.as_str());
                r.append("\":\n\t");
                r.append(error.to_string().as_str());
                r
            },
        }
    }
}

impl From<()> for ParseError {
    fn from(unit: ()) -> (r: ParseError)
        ensures
            r matches ParseError::Other(m) && m@ == "Error: ()"@,
    {
        ParseError::Other("Error: ()".to_owned())
    }
}

impl vstd::std_specs::convert::FromSpecImpl<()> for ParseError {
    /// The message is stated on `from` itself: a spec value cannot hold a `String` built here.
    open spec fn obeys_from_spec() -> bool {
        false
    }

    open spec fn from_spec(unit: ()) -> ParseError {
        choose|e: ParseError| e is Other && #[trigger] render(e) == "Error: ()"@
    }
}

impl From<IntErrorKind> for ParseError {
    fn from(kind: IntErrorKind) -> (r: ParseError) {
        ParseError::Int(kind)
    }
}

impl vstd::std_specs::convert::FromSpecImpl<IntErrorKind> for ParseError {
    open spec fn obeys_from_spec() -> bool {
        true
    }

    open spec fn from_spec(kind: IntErrorKind) -> ParseError {
        ParseError::Int(kind)
    }
}

impl From<CharErrorKind> for ParseError {
    fn from(kind: CharErrorKind) -> (r: ParseError) {
        ParseError::Char(kind)
    }
}

impl vstd::std_specs::convert::FromSpecImpl<CharErrorKind> for ParseError {
    open spec fn obeys_from_spec() -> bool {
        true
    }

    open spec fn from_spec(kind: CharErrorKind) -> ParseError {
        ParseError::Char(kind)
    }
}

impl From<FloatErrorKind> for ParseError {
    fn from(kind: FloatErrorKind) -> (r: ParseError) {
        ParseError::Float(kind)
    }
}

impl vstd::std_specs::convert::FromSpecImpl<FloatErrorKind> for ParseError {
    open spec fn obeys_from_spec() -> bool {
        true
    }

    open spec fn from_spec(kind: FloatErrorKind) -> ParseError {
        ParseError::Float(kind)
    }
}

impl From<AddrKind> for ParseError {
    fn from(kind: AddrKind) -> (r: ParseError) {
        ParseError::Addr(kind)
    }
}

impl vstd::std_specs::convert::FromSpecImpl<AddrKind> for ParseError {
    open spec fn obeys_from_spec() -> bool {
        true
    }

    open spec fn from_spec(kind: AddrKind) -> ParseError {
        ParseError::Addr(kind)
    }
}

/// The error for a text that the platform's floating-point parser refused: `Empty` exactly
/// when the text is empty, as that parser reports it.
pub fn float_error(s: &str) -> (r: ParseError)
    ensures
        r == ParseError::Float(
            if s@.len() == 0 {
                FloatErrorKind::Empty
            } else {
                FloatErrorKind::Invalid
            },
        ),
{
    if s.is_empty() {
        ParseError::Float(FloatErrorKind::Empty)
    } else {
        ParseError::Float(FloatErrorKind::Invalid)
    }
}

/// Hands back the value of a conversion that the caller knows has succeeded.
pub fn unwrap_parse<T>(result: Result<T, ParseError>) -> (r: T)
    requires
        result is Ok,
    ensures
        result == Ok::<T, ParseError>(r),
{
    match result {
        Ok(x) => x,
        Err(_) => vstd::pervasive::unreached(),
    }
}

/// What `try_parse_context` gives for `item` inside `full_string`: a success that converting
/// `item` may give, or one `Context` layer over a refusal that converting `item` may give.
pub open spec fn context_outcome<'a, T: LendingFromStr<'a>>(
    item: Seq<char>,
    full_string: Seq<char>,
    r: Result<T, ParseError>,
) -> bool {
    match r {
        Ok(v) => T::converts(item, Ok(v)),
        Err(e) => e matches ParseError::Context { full_string: f, failed_item: i, error } && f@
            == full_string && i@ == item && T::converts(item, Err(*error)),
    }
}

/// Wraps the failure of the item `item` of the whole input `full_string` in one `Context`
/// layer; a success passes through unchanged.
pub fn add_err_context<T>(result: Result<T, ParseError>, full_string: &str, item: &str) -> (r:
    Result<T, ParseError>)
    ensures
        match result {
            Ok(_) => r == result,
            Err(e) => r matches Err(ParseError::Context { full_string: f, failed_item: i, error })
                && f@ == full_string@ && i@ == item@ && *error == e,
        },
{
    match result {
        Ok(v) => Ok(v),
        Err(e) => Err(
            ParseError::Context {
                full_string: full_string.to_owned(),
                failed_item: item.to_owned(),
                error: Box::new(e),
            },
        ),
    }
}

/// Converts `item`, a piece of the larger input `full_string`. A failure comes back wrapped
/// in one `Context` layer that records both texts and keeps the conversion's own error.
pub fn try_parse_context<'a, T: LendingFromStr<'a>>(item: &'a str, full_string: &'a str) -> (r:
    Result<T, ParseError>)
    ensures
        context_outcome::<T>(item@, full_string@, r),
{
    add_err_context(item.lending_parse::<T>(), full_string, item)
}

/// Converting an item in context succeeds exactly when converting it alone does, whatever the
/// enclosing text; a failure is the conversion's own error under exactly one more layer, with
/// the same deepest cause.
pub proof fn context_agrees_with_conversion<'a, T: LendingFromStr<'a>>(
    item: Seq<char>,
    full_string: Seq<char>,
    plain: Result<T, ParseError>,
    wrapped: Result<T, ParseError>,
)
    requires
        T::converts(item, plain),
        context_outcome::<T>(item, full_string, wrapped),
    ensures
        plain is Ok <==> wrapped is Ok,
        plain matches Err(e) ==> (wrapped matches Err(w) && cause(w) == Some(e) && root_cause(w)
            == root_cause(e) && context_depth(w) == context_depth(e) + 1),
{
    match wrapped {
        Ok(v) => T::converts_determined(item, plain, Ok(v)),
        Err(w) => {
            let inner = *w->Context_error;
            T::converts_determined(item, plain, Err(inner));
            wrapping_keeps_root_cause(w, inner);
        },
    }
}

/// Wraps the failure of one element `failed_item` of the repeated group `input` in one
/// `MultiContext` layer; a success passes through unchanged.
pub fn add_err_multi_context<T>(result: Result<T, ParseError>, input: &str, failed_item: &str) -> (r:
    Result<T, ParseError>)
    ensures
        match result {
            Ok(_) => r == result,
            Err(e) => r matches Err(ParseError::MultiContext { multi_string, failed_string, error })
                && multi_string@ == input@ && failed_string@ == failed_item@ && *error == e,
        },
{
    match result {
        Ok(v) => Ok(v),
        Err(e) => Err(
            ParseError::MultiContext {
                multi_string: input.to_owned(),
                failed_string: failed_item.to_owned(),
                error: Box::new(e),
            },
        ),
    }
}

/// A context layer adds exactly one layer above the error it wraps and leaves the deepest
/// cause as it was.
pub proof fn wrapping_keeps_root_cause(wrapped: ParseError, inner: ParseError)
    requires
        cause(wrapped) == Some(inner),
    ensures
        root_cause(wrapped) == root_cause(inner),
        context_depth(wrapped) == context_depth(inner) + 1,
{
}

/// Following the chain of wrapped errors ends after `context_depth` steps, at an error that
/// wraps nothing: the chain has no cycle.
pub proof fn chain_ends_at_root_cause(e: ParseError)
    ensures
        cause(root_cause(e)) is None,
        context_depth(e) == 0 <==> cause(e) is None,
        cause(e) matches Some(inner) ==> context_depth(inner) < context_depth(e),
        cause(e) matches Some(inner) ==> root_cause(inner) == root_cause(e),
    decreases e,
{
    match e {
        ParseError::MultiContext { error, .. } => chain_ends_at_root_cause(*error),
        ParseError::Context { error, .. } => chain_ends_at_root_cause(*error),
        _ => {},
    }
}

/// Two `Literal` errors are equal exactly when their expected and found texts are.
pub proof fn literal_equality(a: ParseError, b: ParseError)
    requires
        a is Literal,
        b is Literal,
    ensures
        errors_equal(a, b) <==> (a->Literal_expected@ == b->Literal_expected@
            && a->Literal_found@ == b->Literal_found@),
{
}

/// A `Literal` error never equals an `Array` error, whatever they hold.
pub proof fn literal_never_equals_array(a: ParseError, b: ParseError)
    requires
        a is Literal,
        b is Array,
    ensures
        !errors_equal(a, b),
        !errors_equal(b, a),
{
}

/// Every error without a `Dyn` error in its chain equals itself.
pub proof fn equality_is_reflexive(e: ParseError)
    requires
        comparable(e),
    ensures
        errors_equal(e, e),
    decreases e,
{
    match e {
        ParseError::MultiContext { error, .. } => equality_is_reflexive(*error),
        ParseError::Context { error, .. } => equality_is_reflexive(*error),
        _ => {},
    }
}

/// A `Dyn` error equals no error, itself included.
pub proof fn dyn_equals_nothing(a: ParseError, b: ParseError)
    requires
        a is Dyn,
    ensures
        !errors_equal(a, b),
        !errors_equal(b, a),
{
}

} // verus!

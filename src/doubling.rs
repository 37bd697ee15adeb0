use vstd::prelude::*;
use vstd::std_specs::convert::FromSpecImpl;
use vstd::string::StringExecFns;
use std::num::ParseIntError;

verus! {

/// std's `ParseIntError`, carried as it comes from `str::parse::<i32>`; its
/// contents are not looked at.
#[verifier::external_type_specification]
#[verifier::external_body]
pub struct ExParseIntError(std::num::ParseIntError);

/// Whether `c` is one of the ASCII digits `0` to `9`.
pub open spec fn is_decimal_digit(c: char) -> bool {
    '0' <= c && c <= '9'
}

/// Whether `s` is one or more ASCII digits.
pub open spec fn all_digits(s: Seq<char>) -> bool {
    s.len() > 0 && forall|i: int| 0 <= i < s.len() ==> is_decimal_digit(#[trigger] s[i])
}

/// The value of a run of decimal digits, most significant first.
pub open spec fn digits_value(s: Seq<char>) -> int
    decreases s.len(),
{
    if s.len() == 0 {
        0
    } else {
        10 * digits_value(s.drop_last()) + (s.last() as int - '0' as int)
    }
}

/// The integer that `s` writes in decimal: an optional `+` or `-` followed by
/// one or more digits. `None` for any other text.
pub open spec fn decimal_value(s: Seq<char>) -> Option<int> {
    if s.len() > 0 && s[0] == '-' && all_digits(s.skip(1)) {
        Some(-digits_value(s.skip(1)))
    } else if s.len() > 0 && s[0] == '+' && all_digits(s.skip(1)) {
        Some(digits_value(s.skip(1)))
    } else if all_digits(s) {
        Some(digits_value(s))
    } else {
        None
    }
}

/// The `i32` that `s` writes in decimal, if it writes one in range.
pub open spec fn parsed_i32(s: Seq<char>) -> Option<i32> {
    match decimal_value(s) {
        Some(v) => if i32::MIN <= v && v <= i32::MAX {
            Some(v as i32)
        } else {
            None
        },
        None => None,
    }
}

/// Whether twice the number that `s` writes, if it writes one, is an `i32`.
pub open spec fn doubling_fits(s: Seq<char>) -> bool {
    match parsed_i32(s) {
        Some(n) => i32::MIN <= 2 * n && 2 * n <= i32::MAX,
        None => true,
    }
}

/// Relies on `str::parse::<i32>` (`i32`'s `FromStr`, radix 10): it accepts an
/// optional `+` or `-` followed by one or more ASCII digits whose value is in
/// range, and fails on any other text.
#[verifier::external_body]
fn parse_i32(s: &str) -> (r: Result<i32, ParseIntError>)
    ensures
        match r {
            Ok(n) => parsed_i32(s@) == Some(n),
            Err(_) => parsed_i32(s@) is None,
        },
{
    s.parse::<i32>()
}

/// Twice the number that `number_str` writes, or the error of parsing it.
pub fn double_number(number_str: &str) -> (r: Result<i32, ParseIntError>)
    requires
        doubling_fits(number_str@),
    ensures
        match r {
            Ok(v) => parsed_i32(number_str@) is Some && v == 2 * parsed_i32(number_str@)->Some_0,
            Err(_) => parsed_i32(number_str@) is None,
        },
{
    double_parsed_number(parse_i32(number_str))
}

/// Twice the number that parsing gave, or the parse error unchanged.
pub fn double_parsed_number(p: Result<i32, ParseIntError>) -> (r: Result<i32, ParseIntError>)
    requires
        p is Ok ==> i32::MIN <= 2 * p->Ok_0 <= i32::MAX,
    ensures
        r == (match p {
            Ok(n) => Ok::<i32, ParseIntError>((2 * n) as i32),
            Err(e) => Err::<i32, ParseIntError>(e),
        }),
{
    match p {
        Ok(n) => Ok(2 * n),
        Err(e) => Err(e),
    }
}

/// The same as `double_number`, written with `map`.
pub fn double_number_map(number_str: &str) -> (r: Result<i32, ParseIntError>)
    requires
        doubling_fits(number_str@),
    ensures
        match r {
            Ok(v) => parsed_i32(number_str@) is Some && v == 2 * parsed_i32(number_str@)->Some_0,
            Err(_) => parsed_i32(number_str@) is None,
        },
{
    double_parsed_number_map(parse_i32(number_str))
}

/// The same as `double_parsed_number`, written with `map`.
pub fn double_parsed_number_map(p: Result<i32, ParseIntError>) -> (r: Result<i32, ParseIntError>)
    requires
        p is Ok ==> i32::MIN <= 2 * p->Ok_0 <= i32::MAX,
    ensures
        r == (match p {
            Ok(n) => Ok::<i32, ParseIntError>((2 * n) as i32),
            Err(e) => Err::<i32, ParseIntError>(e),
        }),
{
    p.map(|n: i32| -> (d: i32)
        requires
            i32::MIN <= 2 * n <= i32::MAX,
        ensures
            d == 2 * n,
        { 2 * n })
}

/// Why the first entry of a list could not be doubled.
#[derive(Debug, PartialEq, Eq)]
pub enum DoubleError {
    /// The list is empty.
    EmptyVec,
    /// The first entry is not a number.
    Parse(ParseIntError),
}

impl From<ParseIntError> for DoubleError {
    fn from(err: ParseIntError) -> (r: DoubleError) {
        DoubleError::Parse(err)
    }
}

impl FromSpecImpl<ParseIntError> for DoubleError {
    open spec fn obeys_from_spec() -> bool {
        true
    }

    open spec fn from_spec(err: ParseIntError) -> DoubleError {
        DoubleError::Parse(err)
    }
}

impl DoubleError {
    /// The message for this error. For a parse error it is the parse error's
    /// own message.
    pub fn message(&self) -> (r: String)
        ensures
            self is EmptyVec ==> r@ == "please use a vector with at least one element"@,
            self matches DoubleError::Parse(e) ==> vstd::string::to_string_from_display_ensures::<
                ParseIntError,
            >(&e, r),
    {
        match self {
            DoubleError::EmptyVec => String::from_str("please use a vector with at least one element"),
            DoubleError::Parse(e) => e.to_string(),
        }
    }
}

/// Twice the number that the first entry of `vec` writes. An empty list is
/// reported before anything is parsed.
pub fn double_first(vec: Vec<&str>) -> (r: Result<i32, DoubleError>)
    requires
        vec@.len() > 0 ==> doubling_fits(vec@[0]@),
    ensures
        vec@.len() == 0 <==> r == Err::<i32, DoubleError>(DoubleError::EmptyVec),
        vec@.len() > 0 ==> match r {
            Ok(v) => parsed_i32(vec@[0]@) is Some && v == 2 * parsed_i32(vec@[0]@)->Some_0,
            Err(e) => parsed_i32(vec@[0]@) is None && e is Parse,
        },
{
    if vec.len() == 0 {
        return Err(DoubleError::EmptyVec);
    }
    let first: &str = vec[0];
    double_parsed(parse_i32(first))
}

/// Twice the number that parsing gave, or the parse error converted into a
/// `DoubleError`, unchanged inside it.
pub fn double_parsed(p: Result<i32, ParseIntError>) -> (r: Result<i32, DoubleError>)
    requires
        p is Ok ==> i32::MIN <= 2 * p->Ok_0 <= i32::MAX,
    ensures
        r == (match p {
            Ok(n) => Ok::<i32, DoubleError>((2 * n) as i32),
            Err(e) => Err::<i32, DoubleError>(DoubleError::Parse(e)),
        }),
{
    match p {
        Ok(n) => Ok(2 * n),
        Err(e) => Err(DoubleError::from(e)),
    }
}

} // verus!

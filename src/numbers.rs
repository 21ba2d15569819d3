use vstd::prelude::*;

use crate::container::{caught, AnyError, AnyResult, Failure};

verus! {

#[verifier::external_type_specification]
#[verifier::external_body]
pub struct ExParseIntError(std::num::ParseIntError);

/// The digits of a decimal text once an optional leading `+` is set aside.
pub open spec fn unsigned_digits(s: Seq<char>) -> Seq<char> {
    if s.len() > 0 && s[0] == '+' {
        s.drop_first()
    } else {
        s
    }
}

pub open spec fn is_decimal(d: Seq<char>) -> bool {
    d.len() > 0 && forall|i: int| 0 <= i < d.len() ==> '0' <= #[trigger] d[i] <= '9'
}

/// The value of a sequence of decimal digits, most significant first.
pub open spec fn decimal_value(d: Seq<char>) -> int
    decreases d.len(),
{
    if d.len() == 0 {
        0
    } else {
        decimal_value(d.drop_last()) * 10 + (d.last() as int - '0' as int)
    }
}

/// Whether `s` is the decimal text of a `u8`: an optional `+`, then one or
/// more ASCII digits whose value is at most 255.
pub open spec fn parses_as_u8(s: Seq<char>) -> bool {
    is_decimal(unsigned_digits(s)) && decimal_value(unsigned_digits(s)) <= 255
}

/// The message of the error that parsing `s` as a `u8` fails with.
pub uninterp spec fn u8_parse_error_text(s: Seq<char>) -> Seq<char>;

/// Relies on `<u8 as FromStr>::from_str` (what `str::parse::<u8>` calls):
/// it accepts an optional `+` followed by decimal digits that fit in a `u8`,
/// and fails with a `ParseIntError` on anything else, whose message depends
/// on the input text alone. The error is handed back as that message.
#[verifier::external_body]
fn parse_u8(s: &str) -> (r: Result<u8, String>)
    ensures
        r is Ok <==> parses_as_u8(s@),
        r matches Ok(v) ==> v as int == decimal_value(unsigned_digits(s@)),
        r matches Err(t) ==> t@ == u8_parse_error_text(s@),
{
    match s.parse::<u8>() {
        Ok(v) => Ok(v),
        Err(e) => Err(format!("{}", e)),
    }
}

impl AnyError {
    /// Takes in a failed number parse as a foreign failure, whose text is the
    /// parse error's own message.
    pub fn from_parse_error(e: std::num::ParseIntError) -> (r: AnyError)
        ensures
            exists|t: String|
                #[trigger] vstd::string::to_string_from_display_ensures::<
                    std::num::ParseIntError,
                >(&e, t) && r@ == caught(Failure::Foreign(t@)),
    {
        let t = e.to_string();
        let r = AnyError::from_foreign(t);
        assert(vstd::string::to_string_from_display_ensures::<std::num::ParseIntError>(&e, t));
        r
    }
}

/// Parses `text` as a `u8`; a failure enters the container as a foreign one
/// that carries the parse error's message.
pub fn parse_number(text: &str) -> (r: AnyResult<u8>)
    ensures
        r is Ok <==> parses_as_u8(text@),
        r matches Ok(v) ==> v as int == decimal_value(unsigned_digits(text@)),
        r matches Err(e) ==> e@ == caught(Failure::Foreign(u8_parse_error_text(text@))),
{
    match parse_u8(text) {
        Ok(v) => Ok(v),
        Err(t) => Err(AnyError::from_foreign(t)),
    }
}

} // verus!

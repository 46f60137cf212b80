//! The arguments of an extraction that need checking.
use vstd::prelude::*;
use vstd::string::StringExecFns;

verus! {

/// The number that the first `k` characters spell in decimal digits, or
/// `None` where one of them is no digit.
pub open spec fn decimal(s: Seq<char>, k: nat) -> Option<nat>
    decreases k,
{
    if k == 0 {
        Some(0)
    } else {
        let digit = s[k - 1] as int - 48;
        match decimal(s, (k - 1) as nat) {
            None => None,
            Some(v) => if 0 <= digit <= 9 {
                Some((10 * v + digit) as nat)
            } else {
                None
            },
        }
    }
}

/// The number that a string spells as a `u8`: one digit or more, with or
/// without a `+` before them, that spell no more than 255. Anything else
/// spells none.
pub open spec fn parsed_u8(s: Seq<char>) -> Option<u8> {
    let digits = if s.len() > 0 && s[0] == '+' {
        s.subrange(1, s.len() as int)
    } else {
        s
    };
    if digits.len() == 0 {
        None
    } else {
        match decimal(digits, digits.len()) {
            None => None,
            Some(v) => if v <= 255 {
                Some(v as u8)
            } else {
                None
            },
        }
    }
}

/// `str::parse::<u8>` of std: it reads an optional `+` and then decimal
/// digits, and refuses an empty string, any other character and a number
/// above 255.
#[verifier::external_body]
pub(crate) fn parse_u8(s: &str) -> (res: Option<u8>)
    ensures
        res == parsed_u8(s@),
{
    s.parse::<u8>().ok()
}

/// The highest compression level.
pub const MAX_COMPRESSION_LEVEL: u8 = 9;

/// What is said of a string that is no number.
pub const INVALID_LEVEL: &'static str = "invalid compression level: ";

/// What is said of a number that is no level.
pub const LEVEL_OUT_OF_RANGE: &'static str = "level must be between 0 and 9";

/// The level that a string stands for, given the number that was read
/// from it, or what is wrong with it.
pub open spec fn level_of(parsed: Option<u8>, s: Seq<char>) -> Result<u8, Seq<char>> {
    match parsed {
        None => Err(INVALID_LEVEL@ + s),
        Some(level) => if level > MAX_COMPRESSION_LEVEL {
            Err(LEVEL_OUT_OF_RANGE@)
        } else {
            Ok(level)
        },
    }
}

/// Checks the number that was read from `s` as a compression level.
pub fn check_level(parsed: Option<u8>, s: &str) -> (res: Result<u8, String>)
    ensures
        match res {
            Ok(level) => level_of(parsed, s@) == Ok::<u8, Seq<char>>(level),
            Err(message) => level_of(parsed, s@) == Err::<u8, Seq<char>>(message@),
        },
{
    match parsed {
        None => {
            let mut message = String::from_str(INVALID_LEVEL);
            message.append(s);
            Err(message)
        },
        Some(level) => {
            if level > MAX_COMPRESSION_LEVEL {
                Err(String::from_str(LEVEL_OUT_OF_RANGE))
            } else {
                Ok(level)
            }
        },
    }
}

/// Reads a compression level from a string: a number from 0 to 9.
pub fn compression_level_range(s: &str) -> (res: Result<u8, String>)
    ensures
        match res {
            Ok(level) => level_of(parsed_u8(s@), s@) == Ok::<u8, Seq<char>>(level),
            Err(message) => level_of(parsed_u8(s@), s@) == Err::<u8, Seq<char>>(message@),
        },
{
    check_level(parse_u8(s), s)
}

} // verus!

//! Parsing of the stream identifier: a `0x`-prefixed hexadecimal string
//! naming the CDC partition to read, turned into its bytes once at
//! startup.

use vstd::prelude::*;
use vstd::string::StrSliceExecFns;

verus! {

/// A hexadecimal digit in either case.
pub open spec fn is_hex_digit(c: char) -> bool {
    ('0' <= c && c <= '9') || ('a' <= c && c <= 'f') || ('A' <= c && c <= 'F')
}

/// The numeric value of one hexadecimal digit.
pub open spec fn hex_digit_value(c: char) -> int
    recommends
        is_hex_digit(c),
{
    if '0' <= c && c <= '9' {
        c as int - '0' as int
    } else if 'a' <= c && c <= 'f' {
        c as int - 'a' as int + 10
    } else {
        c as int - 'A' as int + 10
    }
}

/// Every character is a hexadecimal digit.
pub open spec fn all_hex_digits(s: Seq<char>) -> bool {
    forall|i: int| 0 <= i < s.len() ==> is_hex_digit(#[trigger] s[i])
}

/// A decodable hexadecimal string: digits only, in whole pairs.
pub open spec fn valid_hex(s: Seq<char>) -> bool {
    s.len() % 2 == 0 && all_hex_digits(s)
}

/// The bytes a hexadecimal string denotes: one byte per digit pair, high
/// nibble first.
pub open spec fn hex_decoded(s: Seq<char>) -> Seq<u8>
    recommends
        valid_hex(s),
    decreases s.len(),
{
    if s.len() < 2 {
        Seq::empty()
    } else {
        seq![(16 * hex_digit_value(s[0]) + hex_digit_value(s[1])) as u8] + hex_decoded(s.skip(2))
    }
}

/// A malformed stream identifier: fatal at startup, before any connection.
#[derive(Clone, Copy, Debug, PartialEq, Eq, Structural)]
pub enum ArgError {
    /// The argument does not begin with `0x`.
    MissingPrefix,
    /// What follows `0x` is not hexadecimal digit pairs.
    InvalidHex,
}

/// hex's error type, declared so that the decoding wrapper may return it.
#[verifier::external_type_specification]
#[verifier::external_body]
pub struct ExFromHexError(hex::FromHexError);

/// Relies on hex::decode: on an ASCII string it succeeds exactly when the
/// length is even and every character is a hexadecimal digit, upper or
/// lower case, and then yields one byte per digit pair, high nibble first.
#[verifier::external_body]
fn decode_hex(s: &str) -> (r: Result<Vec<u8>, hex::FromHexError>)
    requires
        s.is_ascii(),
    ensures
        r is Ok <==> valid_hex(s@),
        r is Ok ==> r.unwrap()@ == hex_decoded(s@),
{
    hex::decode(s)
}

/// The identifier begins with the literal prefix `0x`.
pub open spec fn has_stream_prefix(s: Seq<char>) -> bool {
    s.len() >= 2 && s[0] == '0' && s[1] == 'x'
}

/// Parses the stream identifier argument: `0x` followed by hexadecimal
/// digit pairs. Returns the identifier's bytes, or says exactly what was
/// malformed; no other outcome exists.
pub fn parse_stream_id(arg: &str) -> (r: Result<Vec<u8>, ArgError>)
    ensures
        !has_stream_prefix(arg@) <==> r == Err::<Vec<u8>, ArgError>(ArgError::MissingPrefix),
        has_stream_prefix(arg@) ==> (r is Ok <==> valid_hex(arg@.skip(2))),
        has_stream_prefix(arg@) && !valid_hex(arg@.skip(2)) ==> r == Err::<Vec<u8>, ArgError>(
            ArgError::InvalidHex,
        ),
        r is Ok ==> r.unwrap()@ == hex_decoded(arg@.skip(2)),
{
    let n: usize = arg.unicode_len();
    if n < 2 {
        return Err(ArgError::MissingPrefix);
    }
    let c0 = arg.get_char(0);
    let c1 = arg.get_char(1);
    if c0 != '0' || c1 != 'x' {
        return Err(ArgError::MissingPrefix);
    }
    let hex_part = arg.substring_char(2, n);
    proof {
        assert(hex_part@ == arg@.skip(2));
    }
    if !hex_part.is_ascii() {
        proof {
            if valid_hex(hex_part@) {
                assert forall|i: int|
                    0 <= i < hex_part@.len() implies '\0' <= #[trigger] hex_part@[i]
                    <= '\u{7f}' by {
                    assert(is_hex_digit(hex_part@[i]));
                }
            }
        }
        return Err(ArgError::InvalidHex);
    }
    match decode_hex(hex_part) {
        Ok(bytes) => Ok(bytes),
        Err(_) => Err(ArgError::InvalidHex),
    }
}

} // verus!

use vstd::prelude::*;
use vstd::string::StringSliceAdditionalSpecFns;

use crate::types::{HashParseFault, QueryError};

verus! {

/// Whether a byte is an ASCII hexadecimal digit (either case).
pub open spec fn is_hex_digit(b: u8) -> bool {
    (48 <= b <= 57) || (97 <= b <= 102) || (65 <= b <= 70)
}

/// The value of one hexadecimal digit byte.
pub open spec fn hex_digit_val(b: u8) -> u8 {
    if 48 <= b <= 57 {
        (b - 48) as u8
    } else if 97 <= b <= 102 {
        (b - 87) as u8
    } else {
        (b - 55) as u8
    }
}

/// Whether a byte string is a well-formed hexadecimal encoding: even length,
/// digits throughout.
pub open spec fn valid_hex(s: Seq<u8>) -> bool {
    s.len() % 2 == 0 && forall|i: int| 0 <= i < s.len() ==> is_hex_digit(#[trigger] s[i])
}

/// The bytes a hexadecimal string encodes, one per digit pair.
pub open spec fn hex_bytes(s: Seq<u8>) -> Seq<u8> {
    Seq::new(s.len() / 2, |i: int| (hex_digit_val(s[2 * i]) * 16 + hex_digit_val(s[2 * i + 1])) as u8)
}

/// Relies on hex::decode: each pair of hexadecimal digits (either case)
/// becomes one byte of the result; a string of odd length is rejected
/// outright, and otherwise the first byte that is no digit is reported with
/// its position. Decoding into a byte vector never reports a length
/// mismatch.
#[verifier::external_body]
fn hex_decode_bytes(s: &str) -> (r: Result<Vec<u8>, HashParseFault>)
    ensures
        r is Ok <==> valid_hex(s.spec_bytes()),
        r matches Ok(v) ==> v@ == hex_bytes(s.spec_bytes()),
        r matches Err(f) ==> f != HashParseFault::BadLength,
        r matches Err(f) ==> (f == HashParseFault::OddLength <==> s.spec_bytes().len() % 2 != 0),
        r matches Err(f) ==> (s.spec_bytes().len() % 2 == 0 ==> (f
            matches HashParseFault::BadDigit { index } && 0 <= index < s.spec_bytes().len()
            && !is_hex_digit(s.spec_bytes()[index as int]) && (forall|j: int|
            0 <= j < index ==> is_hex_digit(#[trigger] s.spec_bytes()[j])))),
{
    match hex::decode(s) {
        Ok(v) => Ok(v),
        Err(hex::FromHexError::OddLength) => Err(HashParseFault::OddLength),
        Err(hex::FromHexError::InvalidHexCharacter { c: _, index }) => Err(
            HashParseFault::BadDigit { index },
        ),
        Err(hex::FromHexError::InvalidStringLength) => Err(HashParseFault::BadLength),
    }
}

/// Parses a caller-supplied block-hash string into raw hash bytes. A
/// malformed identifier is a client-input error, rejected here before any
/// store access.
pub fn parse_block_hash(s: &str) -> (r: Result<Vec<u8>, QueryError>)
    ensures
        ({
            let b = s.spec_bytes();
            &&& (r is Ok <==> valid_hex(b))
            &&& (r matches Ok(v) ==> v@ == hex_bytes(b))
            &&& (r matches Err(e) ==> e matches QueryError::ClientInput { fault })
            &&& (r matches Err(e) ==> (e == (QueryError::ClientInput {
                fault: HashParseFault::OddLength,
            }) <==> b.len() % 2 != 0))
            &&& (r matches Err(e) ==> (b.len() % 2 == 0 ==> (e matches QueryError::ClientInput {
                fault,
            } && fault matches HashParseFault::BadDigit { index } && 0 <= index < b.len()
                && !is_hex_digit(b[index as int]) && (forall|j: int|
                0 <= j < index ==> is_hex_digit(#[trigger] b[j])))))
        }),
{
    match hex_decode_bytes(s) {
        Ok(v) => Ok(v),
        Err(f) => Err(QueryError::ClientInput { fault: f }),
    }
}

} // verus!

//! The UUID of a swap area.

use std::str::FromStr;
use uuid::Uuid;
use vstd::prelude::*;

use crate::text::{ascii_lowercase, digit_char};

verus! {

/// The lower-case hexadecimal digit for `n`.
pub open spec fn hex_char(n: nat) -> char {
    if n < 10 {
        digit_char(n)
    } else {
        (87 + n) as char
    }
}

/// The `k`-th hexadecimal digit of `bytes`.
pub open spec fn hex_digit_of(bytes: Seq<u8>, k: int) -> char {
    let b = bytes[k / 2] as nat;
    hex_char(
        if k % 2 == 0 {
            b / 16
        } else {
            b % 16
        },
    )
}

/// The notation of a UUID in 32 lower-case hexadecimal digits, in groups of 8, 4, 4, 4 and
/// 12 with a hyphen between two groups.
pub open spec fn hyphenated(bytes: Seq<u8>) -> Seq<char> {
    Seq::new(
        36,
        |i: int|
            if i == 8 || i == 13 || i == 18 || i == 23 {
                '-'
            } else if i < 8 {
                hex_digit_of(bytes, i)
            } else if i < 13 {
                hex_digit_of(bytes, i - 1)
            } else if i < 18 {
                hex_digit_of(bytes, i - 2)
            } else if i < 23 {
                hex_digit_of(bytes, i - 3)
            } else {
                hex_digit_of(bytes, i - 4)
            },
    )
}

/// A hexadecimal digit, in either case.
pub open spec fn is_hex(c: char) -> bool {
    '0' <= c <= '9' || 'a' <= c <= 'f' || 'A' <= c <= 'F'
}

/// The number that a hexadecimal digit stands for.
pub open spec fn hex_value(c: char) -> int {
    if c <= '9' {
        c as int - 48
    } else if c <= 'F' {
        c as int - 55
    } else {
        c as int - 87
    }
}

/// The digits of a text of 36 characters that has hyphens behind its first 8, 12, 16 and 20
/// digits.
pub open spec fn between_hyphens(s: Seq<char>) -> Option<Seq<char>> {
    if s.len() == 36 && s[8] == '-' && s[13] == '-' && s[18] == '-' && s[23] == '-' {
        Some(
            s.subrange(0, 8) + s.subrange(9, 13) + s.subrange(14, 18) + s.subrange(19, 23)
                + s.subrange(24, 36),
        )
    } else {
        None
    }
}

/// The digits of a UUID in one of four notations: without hyphens, with hyphens, with hyphens
/// in braces, and with hyphens behind `urn:uuid:` in either case.
pub open spec fn uuid_digits(s: Seq<char>) -> Option<Seq<char>> {
    if s.len() == 32 {
        Some(s)
    } else if s.len() == 38 && s[0] == '{' && s[37] == '}' {
        between_hyphens(s.subrange(1, 37))
    } else if s.len() == 45 && s.subrange(0, 9).map_values(|c: char| ascii_lowercase(c))
        == "urn:uuid:"@ {
        between_hyphens(s.subrange(9, 45))
    } else {
        between_hyphens(s)
    }
}

/// `s` denotes a UUID in one of the four notations.
pub open spec fn denotes_uuid(s: Seq<char>) -> bool {
    uuid_digits(s) matches Some(digits) && forall|i: int|
        0 <= i < 32 ==> is_hex(#[trigger] digits[i])
}

/// The sixteen bytes that 32 hexadecimal digits stand for, two digits a byte.
pub open spec fn hex_bytes(digits: Seq<char>) -> Seq<u8> {
    Seq::new(16, |k: int| (16 * hex_value(digits[2 * k]) + hex_value(digits[2 * k + 1])) as u8)
}

/// What the `uuid` crate says of a text that denotes no UUID.
pub uninterp spec fn uuid_error_text(s: Seq<char>) -> Seq<char>;

/// The sixteen bytes of the UUID that a text denotes, or the message that says why it denotes
/// none.
pub open spec fn uuid_from_text(s: Seq<char>) -> Result<Seq<u8>, Seq<char>> {
    if denotes_uuid(s) {
        Ok(hex_bytes(uuid_digits(s)->0))
    } else {
        Err(uuid_error_text(s))
    }
}

/// The notation in which a UUID is told to the user denotes that UUID.
pub proof fn lemma_hyphenated(bytes: Seq<u8>)
    requires
        bytes.len() == 16,
    ensures
        uuid_from_text(hyphenated(bytes)) == Ok::<Seq<u8>, Seq<char>>(bytes),
{
    let s = hyphenated(bytes);
    let digits = uuid_digits(s)->0;
    assert(uuid_digits(s) is Some);
    assert forall|k: int| 0 <= k < 32 implies #[trigger] digits[k] == hex_digit_of(bytes, k) by {}
    assert forall|k: int| 0 <= k < 16 implies #[trigger] hex_bytes(digits)[k] == bytes[k] by {
        assert(digits[2 * k] == hex_digit_of(bytes, 2 * k));
        assert(digits[2 * k + 1] == hex_digit_of(bytes, 2 * k + 1));
    }
    assert(hex_bytes(digits) =~= bytes);
}

/// `Uuid::from_str`: reads a UUID in any of the four notations that the `uuid` crate knows, and
/// refuses every other text. The message of a refusal depends on nothing but the text.
#[verifier::external_body]
pub(crate) fn parse_uuid(s: &str) -> (r: Result<[u8; 16], String>)
    ensures
        r is Ok <==> denotes_uuid(s@),
        r matches Ok(bytes) ==> bytes@ == hex_bytes(uuid_digits(s@)->0),
        r matches Err(text) ==> text@ == uuid_error_text(s@),
{
    match Uuid::from_str(s) {
        Ok(uuid) => Ok(uuid.into_bytes()),
        Err(e) => Err(e.to_string()),
    }
}

/// The marks of a random UUID: version 4, and the variant of RFC 9562.
pub open spec fn is_random_uuid(bytes: Seq<u8>) -> bool {
    &&& bytes.len() == 16
    &&& bytes[6] / 16 == 4
    &&& bytes[8] / 64 == 2
}

/// `Uuid::new_v4`: draws a random UUID. Nothing is said of the random bits. It panics where
/// the operating system hands out no random bytes.
#[verifier::external_body]
pub(crate) fn random_uuid() -> (r: [u8; 16])
    ensures
        is_random_uuid(r@),
{
    Uuid::new_v4().into_bytes()
}

/// `Uuid`'s `Display`: the UUID of these bytes in hyphenated lower-case notation.
#[verifier::external_body]
pub(crate) fn uuid_text(bytes: [u8; 16]) -> (r: String)
    ensures
        r@ == hyphenated(bytes@),
{
    Uuid::from_bytes(bytes).to_string()
}

} // verus!

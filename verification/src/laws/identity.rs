//! What holds of UUIDs and their notations.

use vstd::prelude::*;

use crate::cli::OptionsView;
use crate::endian::Endian;
use crate::identity::{
    between_hyphens, denotes_uuid, hex_bytes, hex_digit_of, hyphenated, is_hex, is_random_uuid,
    uuid_digits, uuid_error_text, uuid_from_text,
};
use crate::mkswap::{answers_uuid, launch_of, request_of, LaunchView};
use crate::text::ascii_lowercase;

verus! {

/// The number that a hexadecimal digit stands for, in either case; -1 for any other character.
pub open spec fn nibble(c: char) -> int {
    if '0' <= c <= '9' {
        c as int - '0' as int
    } else if 'a' <= c <= 'f' {
        10 + c as int - 'a' as int
    } else if 'A' <= c <= 'F' {
        10 + c as int - 'A' as int
    } else {
        -1
    }
}

/// 32 digits spell sixteen bytes, two digits a byte.
pub open spec fn spells_bytes(digits: Seq<char>, bytes: Seq<u8>) -> bool {
    &&& digits.len() == 32
    &&& bytes.len() == 16
    &&& forall|k: int| 0 <= k < 32 ==> nibble(#[trigger] digits[k]) >= 0
    &&& forall|k: int|
        0 <= k < 16 ==> #[trigger] bytes[k] == 16 * nibble(digits[2 * k]) + nibble(
            digits[2 * k + 1],
        )
}

/// 32 digits in groups of 8, 4, 4, 4 and 12.
pub open spec fn grouped(digits: Seq<char>) -> Seq<char> {
    digits.subrange(0, 8) + seq!['-'] + digits.subrange(8, 12) + seq!['-'] + digits.subrange(12, 16)
        + seq!['-'] + digits.subrange(16, 20) + seq!['-'] + digits.subrange(20, 32)
}

/// Nine characters that read `urn:uuid:` in any mixture of cases.
pub open spec fn is_urn_prefix(s: Seq<char>) -> bool {
    &&& s.len() == 9
    &&& s[0] == 'u' || s[0] == 'U'
    &&& s[1] == 'r' || s[1] == 'R'
    &&& s[2] == 'n' || s[2] == 'N'
    &&& s[3] == ':'
    &&& s[4] == 'u' || s[4] == 'U'
    &&& s[5] == 'u' || s[5] == 'U'
    &&& s[6] == 'i' || s[6] == 'I'
    &&& s[7] == 'd' || s[7] == 'D'
    &&& s[8] == ':'
}

/// `s` writes these 32 digits down: bare, in groups, in groups within braces, or in groups behind
/// `urn:uuid:`.
pub open spec fn writes_digits(s: Seq<char>, digits: Seq<char>) -> bool {
    ||| s == digits
    ||| s == grouped(digits)
    ||| s == seq!['{'] + grouped(digits) + seq!['}']
    ||| s.len() == 45 && is_urn_prefix(s.take(9)) && s.skip(9) == grouped(digits)
}

/// The digits of a text in groups are found.
proof fn lemma_grouped(digits: Seq<char>)
    requires
        digits.len() == 32,
    ensures
        grouped(digits).len() == 36,
        between_hyphens(grouped(digits)) == Some(digits),
{
    let s = grouped(digits);
    assert(s.len() == 36);
    assert(s[8] == '-' && s[13] == '-' && s[18] == '-' && s[23] == '-');
    assert(between_hyphens(s)->0 =~= digits);
}

/// A text whose digits are found is in groups.
proof fn lemma_ungrouped(s: Seq<char>)
    requires
        between_hyphens(s) is Some,
    ensures
        between_hyphens(s)->0.len() == 32,
        s == grouped(between_hyphens(s)->0),
{
    assert(s =~= grouped(between_hyphens(s)->0));
}

/// The two ways to compare without regard to case agree.
proof fn lemma_urn_prefix(s: Seq<char>)
    requires
        s.len() == 9,
    ensures
        is_urn_prefix(s) <==> s.map_values(|c: char| ascii_lowercase(c)) == "urn:uuid:"@,
{
    reveal_strlit("urn:uuid:");
    let lower = s.map_values(|c: char| ascii_lowercase(c));
    let urn = "urn:uuid:"@;
    assert(urn.len() == 9);
    if is_urn_prefix(s) {
        assert(lower =~= urn);
    }
    if lower == urn {
        assert(lower[0] == 'u' && lower[1] == 'r' && lower[2] == 'n' && lower[3] == ':' && lower[4]
            == 'u' && lower[5] == 'u' && lower[6] == 'i' && lower[7] == 'd' && lower[8] == ':');
    }
}

/// The digits that a text writes down are found.
proof fn lemma_written_digits(s: Seq<char>, digits: Seq<char>)
    requires
        digits.len() == 32,
        writes_digits(s, digits),
    ensures
        uuid_digits(s) == Some(digits),
{
    lemma_grouped(digits);
    let g = grouped(digits);
    if s == seq!['{'] + g + seq!['}'] {
        assert(s.subrange(1, 37) =~= g);
    } else if s.len() == 45 && is_urn_prefix(s.take(9)) && s.skip(9) == g {
        assert(s.subrange(0, 9) =~= s.take(9));
        assert(s.subrange(9, 45) =~= s.skip(9));
        lemma_urn_prefix(s.take(9));
    }
}

/// The bytes that digits spell are found.
proof fn lemma_bytes(digits: Seq<char>, bytes: Seq<u8>)
    requires
        spells_bytes(digits, bytes),
    ensures
        forall|i: int| 0 <= i < 32 ==> is_hex(#[trigger] digits[i]),
        hex_bytes(digits) == bytes,
{
    assert forall|i: int| 0 <= i < 32 implies is_hex(#[trigger] digits[i]) by {
        assert(nibble(digits[i]) >= 0);
    }
    assert forall|k: int| 0 <= k < 16 implies #[trigger] hex_bytes(digits)[k] == bytes[k] by {
        assert(nibble(digits[2 * k]) >= 0 && nibble(digits[2 * k + 1]) >= 0);
    }
    assert(hex_bytes(digits) =~= bytes);
}

/// Whichever notation a UUID is written in, and in whichever case its digits are, the UUID that
/// is read is the sixteen bytes that its digits spell.
pub proof fn law_uuid_is_what_its_digits_spell(
    s: Seq<char>,
    digits: Seq<char>,
    bytes: Seq<u8>,
)
    requires
        spells_bytes(digits, bytes),
        writes_digits(s, digits),
    ensures
        uuid_from_text(s) == Ok::<Seq<u8>, Seq<char>>(bytes),
{
    lemma_written_digits(s, digits);
    lemma_bytes(digits, bytes);
}

/// Nothing else is read as a UUID.
pub proof fn law_other_texts_are_no_uuids(s: Seq<char>)
    ensures
        uuid_from_text(s) matches Ok(bytes) ==> exists|digits: Seq<char>| #[trigger]
            writes_digits(s, digits) && spells_bytes(digits, bytes),
        uuid_from_text(s) matches Err(text) ==> text == uuid_error_text(s),
{
    if uuid_from_text(s) is Ok {
        let digits = uuid_digits(s)->0;
        if s.len() == 32 {
        } else if s.len() == 38 && s[0] == '{' && s[37] == '}' {
            lemma_ungrouped(s.subrange(1, 37));
            assert(s =~= seq!['{'] + grouped(digits) + seq!['}']);
        } else if s.len() == 45 && s.subrange(0, 9).map_values(|c: char| ascii_lowercase(c))
            == "urn:uuid:"@ {
            lemma_ungrouped(s.subrange(9, 45));
            assert(s.subrange(0, 9) =~= s.take(9));
            assert(s.subrange(9, 45) =~= s.skip(9));
            lemma_urn_prefix(s.take(9));
        } else {
            lemma_ungrouped(s);
        }
        assert(writes_digits(s, digits));
        let bytes = hex_bytes(digits);
        assert(denotes_uuid(s));
        assert forall|k: int| 0 <= k < 32 implies nibble(#[trigger] digits[k]) >= 0 by {
            assert(is_hex(digits[k]));
        }
        assert forall|k: int| 0 <= k < 16 implies #[trigger] bytes[k] == 16 * nibble(digits[2 * k])
            + nibble(digits[2 * k + 1]) by {
            assert(is_hex(digits[2 * k]));
            assert(is_hex(digits[2 * k + 1]));
        }
        assert(spells_bytes(digits, bytes));
    }
}

/// The area gets the UUID that was asked for: the bytes that the digits of the text spell.
pub proof fn law_requested_uuid_is_used(
    o: OptionsView,
    endianness: Option<Endian>,
    uuid: Result<Seq<u8>, Seq<char>>,
    s: Seq<char>,
    digits: Seq<char>,
    bytes: Seq<u8>,
)
    requires
        o.uuid == Some(s),
        answers_uuid(o.uuid, uuid),
        writes_digits(s, digits),
        spells_bytes(digits, bytes),
    ensures
        uuid == Ok::<Seq<u8>, Seq<char>>(bytes),
        request_of(o, endianness, uuid) matches Ok(request) ==> request.uuid == bytes,
        launch_of(Ok(o), uuid) matches Ok(LaunchView::Proceed(request)) ==> request.uuid == bytes,
{
    law_uuid_is_what_its_digits_spell(s, digits, bytes);
}

/// A text that writes no UUID down makes no request.
pub proof fn law_wrong_uuid_is_refused(
    o: OptionsView,
    endianness: Option<Endian>,
    uuid: Result<Seq<u8>, Seq<char>>,
    s: Seq<char>,
)
    requires
        o.uuid == Some(s),
        answers_uuid(o.uuid, uuid),
        forall|digits: Seq<char>, bytes: Seq<u8>|
            !(#[trigger] writes_digits(s, digits) && #[trigger] spells_bytes(digits, bytes)),
    ensures
        uuid is Err,
        request_of(o, endianness, uuid) is Err,
        launch_of(Ok(o), uuid) is Err,
{
    law_other_texts_are_no_uuids(s);
    if uuid_from_text(s) is Ok {
        let bytes = uuid_from_text(s)->Ok_0;
        let digits = choose|digits: Seq<char>| #[trigger]
            writes_digits(s, digits) && spells_bytes(digits, bytes);
        assert(writes_digits(s, digits) && spells_bytes(digits, bytes));
    }
}

/// Where no UUID was asked for, the area gets a random one: sixteen bytes with the marks of
/// version 4.
pub proof fn law_drawn_uuid_is_random(
    o: OptionsView,
    endianness: Option<Endian>,
    uuid: Result<Seq<u8>, Seq<char>>,
)
    requires
        o.uuid is None,
        answers_uuid(o.uuid, uuid),
    ensures
        uuid matches Ok(bytes) && bytes.len() == 16 && 0x40 <= bytes[6] <= 0x4f && 0x80 <= bytes[8]
            <= 0xbf,
        request_of(o, endianness, uuid) matches Ok(request) ==> Ok::<Seq<u8>, Seq<char>>(
            request.uuid,
        ) == uuid,
        forall|bytes: Seq<u8>|
            bytes.len() == 16 && 0x40 <= bytes[6] <= 0x4f && 0x80 <= bytes[8] <= 0xbf
                <==> #[trigger] is_random_uuid(bytes),
{
}

/// A UUID is told in groups of lower-case digits that spell its bytes.
pub proof fn law_uuid_is_told_in_lower_case(bytes: Seq<u8>)
    requires
        bytes.len() == 16,
    ensures
        exists|digits: Seq<char>| #[trigger]
            spells_bytes(digits, bytes) && hyphenated(bytes) == grouped(digits) && forall|i: int|
                0 <= i < 32 ==> !('A' <= #[trigger] digits[i] <= 'F'),
{
    let digits = Seq::new(32, |k: int| hex_digit_of(bytes, k));
    assert forall|k: int| 0 <= k < 16 implies #[trigger] bytes[k] == 16 * nibble(digits[2 * k])
        + nibble(digits[2 * k + 1]) by {
        assert(digits[2 * k] == hex_digit_of(bytes, 2 * k));
        assert(digits[2 * k + 1] == hex_digit_of(bytes, 2 * k + 1));
    }
    assert(spells_bytes(digits, bytes));
    assert(hyphenated(bytes) =~= grouped(digits));
}

} // verus!

//! Identifiers: UUIDs held as their 128-bit value, and their text form.
use vstd::prelude::*;
use vstd::arithmetic::power::pow;
use crate::text::digit_char;

verus! {

/// The lower-case hexadecimal digit char of `d < 16`.
pub open spec fn hex_char(d: int) -> char {
    if d < 10 {
        digit_char(d as nat)
    } else if d == 10 {
        'a'
    } else if d == 11 {
        'b'
    } else if d == 12 {
        'c'
    } else if d == 13 {
        'd'
    } else if d == 14 {
        'e'
    } else {
        'f'
    }
}

/// The `j`-th hexadecimal digit of `id`, counting from the most significant (`0 <= j < 32`).
pub open spec fn nibble(id: u128, j: int) -> int {
    (id as int / pow(16, (31 - j) as nat)) % 16
}

/// Which hexadecimal digit of the id stands at position `k` of its text form.
pub open spec fn digit_position(k: int) -> int {
    if k < 8 {
        k
    } else if k < 13 {
        k - 1
    } else if k < 18 {
        k - 2
    } else if k < 23 {
        k - 3
    } else {
        k - 4
    }
}

/// The hyphenated text form of a UUID: 32 lower-case hex digits, most significant first,
/// in groups of 8-4-4-4-12 separated by `-`.
pub open spec fn uuid_text(id: u128) -> Seq<char> {
    Seq::new(
        36,
        |k: int|
            if k == 8 || k == 13 || k == 18 || k == 23 {
                '-'
            } else {
                hex_char(nibble(id, digit_position(k)))
            },
    )
}

/// `Uuid::from_u128(id).to_string()`: the hyphenated lower-case text form of the UUID.
#[verifier::external_body]
pub(crate) fn uuid_to_string(id: u128) -> (s: String)
    ensures
        s@ == uuid_text(id),
{
    uuid::Uuid::from_u128(id).to_string()
}

/// What `Uuid::parse_str` gives for a text, as the UUID's 128-bit value; `None` where
/// the text is no UUID.
pub uninterp spec fn uuid_parsed(s: Seq<char>) -> Option<u128>;

/// `Uuid::parse_str`, with the UUID taken as its 128-bit value and the error dropped;
/// the result is named by `uuid_parsed`. The hyphenated lower-case form that
/// `to_string` writes parses back to the same UUID.
#[verifier::external_body]
pub(crate) fn parse_uuid(s: &str) -> (r: Option<u128>)
    ensures
        r == uuid_parsed(s@),
        forall|id: u128| #[trigger] uuid_text(id) == s@ ==> r == Some(id),
{
    match uuid::Uuid::parse_str(s) {
        Ok(u) => Some(u.as_u128()),
        Err(_) => None,
    }
}

/// A version-7 UUID of the RFC 4122 variant: the version field (bits 76..80) holds 7
/// and the variant field (bits 62..64) holds `0b10`.
pub open spec fn is_v7(id: u128) -> bool {
    &&& (id >> 76u128) & 0xfu128 == 7
    &&& (id >> 62u128) & 0x3u128 == 2
}

/// `Uuid::now_v7()`, as its 128-bit value. The value depends on the clock and on chance;
/// what holds of every outcome is that it is a version-7 UUID (`is_v7`).
#[verifier::external_body]
pub(crate) fn new_v7_id() -> (id: u128)
    ensures
        is_v7(id),
{
    uuid::Uuid::now_v7().as_u128()
}

} // verus!

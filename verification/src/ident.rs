//! Unique identifiers: 128-bit values and their canonical text.

use vstd::arithmetic::power::pow;
use vstd::prelude::*;

verus! {

/// The lower-case hexadecimal digit for a value from 0 to 15.
pub open spec fn hex_char(n: int) -> char {
    if n < 10 {
        (48 + n) as char
    } else {
        (87 + n) as char
    }
}

/// The `k`-th of the 32 hexadecimal digits of `id`, the most significant
/// being the one at 0.
pub open spec fn hex_digit_at(id: u128, k: int) -> int {
    (id as int / pow(16, (31 - k) as nat)) % 16
}

/// Which hexadecimal digit stands at position `i` of the canonical text;
/// the positions 8, 13, 18 and 23 hold hyphens.
pub open spec fn digit_index(i: int) -> int {
    if i < 8 {
        i
    } else if i < 13 {
        i - 1
    } else if i < 18 {
        i - 2
    } else if i < 23 {
        i - 3
    } else {
        i - 4
    }
}

/// The canonical text of an identifier: its 32 lower-case hexadecimal
/// digits, most significant first, in groups of 8, 4, 4, 4 and 12 with a
/// hyphen between the groups, as in `0829b81a-f86e-4411-870a-ca16e6b73189`.
pub open spec fn hyphenated(id: u128) -> Seq<char> {
    Seq::new(
        36,
        |i: int|
            if i == 8 || i == 13 || i == 18 || i == 23 {
                '-'
            } else {
                hex_char(hex_digit_at(id, digit_index(i)))
            },
    )
}

/// The text that `uuid::Uuid::from_u128(id)` displays as (`to_string`). The
/// contract claims that this is the hyphenated lower-case form of `id`
/// taken as 16 big-endian bytes, which is what the crate's `Display`
/// writes.
#[verifier::external_body]
fn display_uuid(id: u128) -> (text: String)
    ensures
        text@ == hyphenated(id),
{
    uuid::Uuid::from_u128(id).to_string()
}

/// The canonical text of an identifier.
pub fn uuid_text(id: u128) -> (text: String)
    ensures
        text@ == hyphenated(id),
        text@.len() == 36,
{
    display_uuid(id)
}

/// The identifier is a random one (version 4): its thirteenth hexadecimal
/// digit is 4 and its seventeenth is one of 8, 9, a and b.
pub open spec fn is_random_uuid(id: u128) -> bool {
    hex_digit_at(id, 12) == 4 && 8 <= hex_digit_at(id, 16) <= 11
}

/// A new random identifier, by `uuid::Uuid::new_v4` and `Uuid::as_u128`.
/// The contract claims what holds of every draw: the version and variant
/// bits are those of a random identifier.
#[verifier::external_body]
fn new_v4() -> (id: u128)
    ensures
        is_random_uuid(id),
{
    uuid::Uuid::new_v4().as_u128()
}

/// A new random identifier.
pub fn random_uuid() -> (id: u128)
    ensures
        is_random_uuid(id),
{
    new_v4()
}

/// What `uuid::Uuid::parse_str` makes of a text: the identifier that the
/// text stands for, or `None` where it reports an error.
pub uninterp spec fn uuid_of_text(text: Seq<char>) -> Option<u128>;

/// Parses a text with `uuid::Uuid::parse_str` and hands the identifier out
/// by `Uuid::as_u128`. The contract gives the outcome a name,
/// [`uuid_of_text`], and claims only that it depends on the text alone.
#[verifier::external_body]
fn parse_str(text: &str) -> (parsed: Option<u128>)
    ensures
        parsed == uuid_of_text(text@),
{
    match uuid::Uuid::parse_str(text) {
        Ok(id) => Some(id.as_u128()),
        Err(_) => None,
    }
}

/// The identifier that a text stands for, in any of the forms in which
/// identifiers are written, or `None` where it stands for none.
pub fn parse_uuid(text: &str) -> (parsed: Option<u128>)
    ensures
        parsed == uuid_of_text(text@),
{
    parse_str(text)
}

} // verus!

//! Primary account numbers (PAN) of payment cards.

use rand::Rng;
use vstd::prelude::*;
use vstd::string::StringExecFns;
use vstd::std_specs::iter::IteratorSpec;
use vstd::string::StringSliceAdditionalSpecFns;
use vstd::utf8::*;

verus! {

/// A primary account number, as printed on a card.
pub type Pan = String;

/// Whether the bytes `from..to` of a string can be taken as a string slice.
pub open spec fn sliceable(bytes: Seq<u8>, from: int, to: int) -> bool {
    &&& 0 <= from <= to <= bytes.len()
    &&& is_char_boundary(bytes, from)
    &&& is_char_boundary(bytes, to)
}

/// The slice of `text` that holds its bytes `from..to`.
fn byte_range(text: &str, from: usize, to: usize) -> (part: &str)
    requires
        sliceable(text.spec_bytes(), from as int, to as int),
    ensures
        part.spec_bytes() == text.spec_bytes().subrange(from as int, to as int),
{
    let (head, _) = text.split_at(to);
    proof {
        encode_utf8_valid_utf8(text@);
        lemma_boundary_in_prefix(text.spec_bytes(), from as int, to as int);
    }
    let (_, part) = head.split_at(from);
    part
}

/// A character boundary of a string is one of each prefix that reaches it.
proof fn lemma_boundary_in_prefix(bytes: Seq<u8>, from: int, to: int)
    requires
        valid_utf8(bytes),
        sliceable(bytes, from, to),
    ensures
        is_char_boundary(bytes.subrange(0, to), from),
{
    broadcast use group_utf8_lib;
    valid_utf8_split(bytes, to);
    let prefix = bytes.subrange(0, to);
    if from == 0 {
    } else if from == to {
        is_char_boundary_start_end_of_seq(prefix);
    } else {
        is_char_boundary_iff_not_is_continuation_byte(bytes, from);
        is_char_boundary_iff_not_is_continuation_byte(prefix, from);
    }
}

/// Read the Major Industry Identifier associated with the PAN: its first byte.
pub fn get_pan_mii(pan: &Pan) -> (mii: &str)
    requires
        sliceable(encode_utf8(pan@), 0, 1),
    ensures
        mii.spec_bytes() == encode_utf8(pan@).subrange(0, 1),
{
    byte_range(pan.as_str(), 0, 1)
}

/// Read the Account Identifier associated with the PAN: its bytes 4 to 14.
pub fn get_pan_account_identifier(pan: &Pan) -> (account: &str)
    requires
        sliceable(encode_utf8(pan@), 4, 15),
    ensures
        account.spec_bytes() == encode_utf8(pan@).subrange(4, 15),
{
    byte_range(pan.as_str(), 4, 15)
}

/// Read the Bank Identification Number associated with the PAN: its first
/// eight bytes.
pub fn get_pan_bin(pan: &Pan) -> (bin: &str)
    requires
        sliceable(encode_utf8(pan@), 0, 8),
    ensures
        bin.spec_bytes() == encode_utf8(pan@).subrange(0, 8),
{
    byte_range(pan.as_str(), 0, 8)
}

/// What the digit that stands `from_right` places before the last one adds
/// to the Luhn sum: every second digit, the last one first, counts double,
/// less 9 where the double has two digits.
pub open spec fn luhn_term(digit: u8, from_right: int) -> int {
    if from_right % 2 == 0 {
        if 2 * digit > 9 {
            2 * digit - 9
        } else {
            2 * digit
        }
    } else {
        digit as int
    }
}

/// The Luhn sum of the first `k` digits of a payload.
pub open spec fn luhn_partial(digits: Seq<u8>, k: int) -> int
    decreases k,
{
    if k <= 0 {
        0
    } else {
        luhn_partial(digits, k - 1) + luhn_term(digits[k - 1], digits.len() - k)
    }
}

/// The Luhn sum of a payload.
pub open spec fn luhn_sum(digits: Seq<u8>) -> int {
    luhn_partial(digits, digits.len() as int)
}

/// The check digit of a payload: what brings its Luhn sum to a multiple of
/// 10.
pub open spec fn luhn_checksum(digits: Seq<u8>) -> int {
    (10 - luhn_sum(digits) % 10) % 10
}

/// Calculate the Luhn checksum for a sequence of digits.
pub fn calculate_luhn_checksum(digits: &[u8]) -> (check: u8)
    ensures
        check == luhn_checksum(digits@),
        check < 10,
{
    let mut rest: u32 = 0;
    let mut k: usize = 0;
    while k < digits.len()
        invariant
            k <= digits.len(),
            rest < 10,
            rest == luhn_partial(digits@, k as int) % 10,
        decreases digits.len() - k,
    {
        let mut digit: u32 = digits[k] as u32;
        if (digits.len() - 1 - k) % 2 == 0 {
            // Double every second digit from the right
            digit = digit * 2;
            if digit > 9 {
                digit = digit - 9;
            }
        }
        rest = (rest + digit) % 10;
        k += 1;
    }
    if rest == 0 {
        0
    } else {
        (10 - rest) as u8
    }
}

/// Whether a character is a decimal digit.
pub open spec fn is_decimal(c: char) -> bool {
    '0' <= c <= '9'
}

/// The decimal digits among the characters, by their values, in their
/// order.
pub open spec fn decimal_digits(chars: Seq<char>) -> Seq<u8> {
    chars.filter(|c: char| is_decimal(c)).map_values(|c: char| (c as int - 48) as u8)
}

/// The digits make a valid number: the last one is the check digit of those
/// before it.
pub open spec fn luhn_valid(digits: Seq<u8>) -> bool {
    digits.len() > 0 && luhn_checksum(digits.drop_last()) == digits.last()
}

/// What one more character adds to the decimal digits of a text.
proof fn lemma_decimal_digits_step(chars: Seq<char>)
    requires
        chars.len() > 0,
    ensures
        decimal_digits(chars) == if is_decimal(chars.last()) {
            decimal_digits(chars.drop_last()).push((chars.last() as int - 48) as u8)
        } else {
            decimal_digits(chars.drop_last())
        },
{
    reveal(Seq::filter);
    let keep = |c: char| is_decimal(c);
    let value = |c: char| (c as int - 48) as u8;
    if is_decimal(chars.last()) {
        assert(chars.filter(keep).map_values(value) =~= chars.drop_last().filter(
            keep,
        ).map_values(value).push(value(chars.last())));
    }
}

/// Validate a PAN: its decimal digits, whatever stands between them, must
/// end in the check digit of those before. The PAN must hold a digit.
pub fn is_valid_pan(pan: &str) -> (valid: bool)
    requires
        decimal_digits(pan@).len() > 0,
    ensures
        valid == luhn_valid(decimal_digits(pan@)),
{
    let mut digits: Vec<u8> = Vec::new();
    let chars = pan.chars();
    for c in it: chars
        invariant
            it.seq() == pan@,
            digits@ == decimal_digits(pan@.take(it.index())),
    {
        proof {
            let next = pan@.take(it.index() + 1);
            assert(next.drop_last() == pan@.take(it.index()));
            lemma_decimal_digits_step(next);
        }
        if '0' <= c && c <= '9' {
            let digit: u8 = (c as u32 - 48) as u8;
            digits.push(digit);
        }
    }
    assert(pan@.take(pan@.len() as int) == pan@);
    let last = digits.len() - 1;
    let payload = vstd::slice::slice_subrange(digits.as_slice(), 0, last);
    calculate_luhn_checksum(payload) == digits[last]
}

/// A digit drawn by `rand::Rng::gen_range(0..10)` from the generator of
/// the thread (`rand::thread_rng`). The contract claims what holds of every
/// draw: the digit is below 10.
#[verifier::external_body]
fn random_digit() -> (digit: u8)
    ensures
        digit < 10,
{
    rand::thread_rng().gen_range(0..10)
}

/// The character for a digit.
fn digit_text(digit: u8) -> (text: &'static str)
    requires
        digit < 10,
    ensures
        text@ == seq![(digit + 48) as char],
{
    proof {
        reveal_strlit("0");
        reveal_strlit("1");
        reveal_strlit("2");
        reveal_strlit("3");
        reveal_strlit("4");
        reveal_strlit("5");
        reveal_strlit("6");
        reveal_strlit("7");
        reveal_strlit("8");
        reveal_strlit("9");
    }
    let text = if digit == 0 {
        "0"
    } else if digit == 1 {
        "1"
    } else if digit == 2 {
        "2"
    } else if digit == 3 {
        "3"
    } else if digit == 4 {
        "4"
    } else if digit == 5 {
        "5"
    } else if digit == 6 {
        "6"
    } else if digit == 7 {
        "7"
    } else if digit == 8 {
        "8"
    } else {
        "9"
    };
    text
}

/// The characters for the digits, in their order.
pub open spec fn digits_text(digits: Seq<u8>) -> Seq<char> {
    Seq::new(digits.len(), |i: int| (digits[i] + 48) as char)
}

/// The PAN that a payload of 15 digits makes: the payload, then its check
/// digit.
pub fn pan_of_payload(payload: Vec<u8>) -> (pan: Pan)
    requires
        payload@.len() == 15,
        forall|i: int| 0 <= i < 15 ==> payload@[i] < 10,
    ensures
        pan@ == digits_text(payload@.push(luhn_checksum(payload@) as u8)),
        decimal_digits(pan@) == payload@.push(luhn_checksum(payload@) as u8),
        luhn_valid(decimal_digits(pan@)),
{
    let mut pan_digits = payload;
    let check = calculate_luhn_checksum(pan_digits.as_slice());
    pan_digits.push(check);
    let mut pan = String::new();
    let mut i: usize = 0;
    while i < pan_digits.len()
        invariant
            i <= pan_digits.len(),
            forall|j: int| 0 <= j < pan_digits@.len() ==> pan_digits@[j] < 10,
            pan@ == digits_text(pan_digits@.take(i as int)),
            decimal_digits(pan@) == pan_digits@.take(i as int),
        decreases pan_digits.len() - i,
    {
        let ghost before = pan@;
        let text = digit_text(pan_digits[i]);
        pan.append(text);
        proof {
            assert(pan@.drop_last() == before);
            lemma_decimal_digits_step(pan@);
            assert(pan_digits@.take(i as int + 1) == pan_digits@.take(i as int).push(
                pan_digits@[i as int],
            ));
        }
        i += 1;
    }
    proof {
        assert(pan_digits@.take(pan_digits@.len() as int) == pan_digits@);
        assert(pan_digits@.drop_last() == payload@);
    }
    pan
}

/// Generate a random PAN: 15 random digits and their check digit. Whatever
/// is drawn, the PAN is valid.
pub fn generate_random_pan() -> (pan: Pan)
    ensures
        pan@.len() == 16,
        decimal_digits(pan@).len() == 16,
        luhn_valid(decimal_digits(pan@)),
{
    let mut pan_digits: Vec<u8> = Vec::new();
    while pan_digits.len() < 15
        invariant
            pan_digits@.len() <= 15,
            forall|i: int| 0 <= i < pan_digits@.len() ==> pan_digits@[i] < 10,
        decreases 15 - pan_digits@.len(),
    {
        pan_digits.push(random_digit());
    }
    pan_of_payload(pan_digits)
}

} // verus!

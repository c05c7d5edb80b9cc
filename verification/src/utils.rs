//! Addresses, signatures and small formatting helpers.

use crate::decimal::{decimal_digits, digit_char, digit_of, push_decimal};
use vstd::prelude::*;
use vstd::utf8::is_ascii_chars;

verus! {

/// Number of characters in an address.
pub const ADDRESS_LEN: usize = 44;

/// Number of characters in a transaction signature.
pub const SIGNATURE_LEN: usize = 88;

/// Number of characters in the base58 alphabet.
pub const BASE58_LEN: usize = 58;

/// True for the characters of the base58 alphabet: the digits and the ASCII
/// letters without `0`, `O`, `I` and `l`.
pub open spec fn is_base58(c: char) -> bool {
    ||| '1' <= c && c <= '9'
    ||| 'A' <= c && c <= 'H'
    ||| 'J' <= c && c <= 'N'
    ||| 'P' <= c && c <= 'Z'
    ||| 'a' <= c && c <= 'k'
    ||| 'm' <= c && c <= 'z'
}

/// True when every character of `s` belongs to the base58 alphabet.
pub open spec fn all_base58(s: Seq<char>) -> bool {
    forall|i: int| 0 <= i < s.len() ==> is_base58(#[trigger] s[i])
}

/// The base58 alphabet in its usual order.
pub open spec fn base58_alphabet() -> Seq<char> {
    "123456789ABCDEFGHJKLMNPQRSTUVWXYZabcdefghijkmnopqrstuvwxyz"@
}

/// The alphabet has 58 characters, each of them a base58 character, and no
/// character occurs in it twice.
pub proof fn lemma_base58_alphabet()
    ensures
        base58_alphabet().len() == BASE58_LEN,
        all_base58(base58_alphabet()),
        forall|i: int, j: int|
            0 <= i < j < BASE58_LEN ==> base58_alphabet()[i] != base58_alphabet()[j],
{
    reveal_strlit("123456789ABCDEFGHJKLMNPQRSTUVWXYZabcdefghijkmnopqrstuvwxyz");
}

/// The character at place `idx` of the base58 alphabet.
pub(crate) fn base58_char(idx: usize) -> (c: char)
    requires
        idx < BASE58_LEN,
    ensures
        c == base58_alphabet()[idx as int],
        is_base58(c),
{
    let alphabet = "123456789ABCDEFGHJKLMNPQRSTUVWXYZabcdefghijkmnopqrstuvwxyz";
    proof {
        lemma_base58_alphabet();
    }
    alphabet.get_char(idx)
}

/// Draws a number below `bound` with `rand::Rng::gen_range` on the generator
/// of the calling thread, `rand::thread_rng()`. Which number comes out is left
/// open; the range `0..bound` that is handed over is not empty, so the draw
/// does not panic on it, and what it returns lies in that range. Making the
/// generator of a thread panics if the operating system gives no randomness;
/// that does not depend on `bound`.
#[verifier::external_body]
fn random_index(bound: usize) -> (idx: usize)
    requires
        bound > 0,
    ensures
        idx < bound,
{
    rand::Rng::gen_range(&mut rand::thread_rng(), 0..bound)
}

/// A string of `len` characters, each drawn from the base58 alphabet.
pub fn random_base58(len: usize) -> (text: String)
    ensures
        text@.len() == len,
        all_base58(text@),
{
    let mut text = String::new();
    let mut i: usize = 0;
    while i < len
        invariant
            i <= len,
            text@.len() == i,
            all_base58(text@),
        decreases len - i,
    {
        let idx: usize = random_index(BASE58_LEN);
        let c: char = base58_char(idx);
        let ghost before = text@;
        text.push(c);
        assert forall|k: int| 0 <= k < text@.len() implies is_base58(#[trigger] text@[k]) by {
            if k < before.len() {
                assert(text@[k] == before[k]);
            }
        }
        i = i + 1;
    }
    text
}

/// A random address: 44 characters of the base58 alphabet.
pub fn generate_random_address() -> (address: String)
    ensures
        is_address(address@),
{
    random_base58(ADDRESS_LEN)
}

/// A random transaction signature: 88 characters of the base58 alphabet.
pub fn generate_random_signature() -> (signature: String)
    ensures
        signature@.len() == SIGNATURE_LEN,
        all_base58(signature@),
{
    random_base58(SIGNATURE_LEN)
}

/// An address is 44 characters long and made of base58 characters only.
pub open spec fn is_address(s: Seq<char>) -> bool {
    s.len() == ADDRESS_LEN && all_base58(s)
}

/// Tells whether `address` has the form of an address.
pub fn is_valid_address(address: &str) -> (valid: bool)
    ensures
        valid == is_address(address@),
{
    if !address.is_ascii() {
        proof {
            let i = choose|i: int|
                0 <= i < address@.len() && !('\0' <= #[trigger] address@[i] <= '\u{7f}');
            assert(!is_base58(address@[i]));
        }
        return false;
    }
    let bytes = address.as_bytes();
    proof {
        vstd::string::is_ascii_spec_bytes(address);
    }
    if bytes.len() != ADDRESS_LEN {
        return false;
    }
    let mut i: usize = 0;
    while i < ADDRESS_LEN
        invariant
            i <= ADDRESS_LEN,
            address@.len() == ADDRESS_LEN,
            bytes@.len() == ADDRESS_LEN,
            is_ascii_chars(address@),
            forall|k: int| 0 <= k < ADDRESS_LEN ==> bytes@[k] == address@[k] as u8,
            forall|k: int| 0 <= k < i ==> is_base58(#[trigger] address@[k]),
        decreases ADDRESS_LEN - i,
    {
        let b: u8 = bytes[i];
        let ghost c = address@[i as int];
        assert(b == c as u8);
        assert('\0' <= c <= '\u{7f}');
        let ok: bool = (49u8 <= b && b <= 57u8) || (65u8 <= b && b <= 72u8) || (74u8 <= b && b
            <= 78u8) || (80u8 <= b && b <= 90u8) || (97u8 <= b && b <= 107u8) || (109u8 <= b && b
            <= 122u8);
        assert(ok == is_base58(c));
        if !ok {
            return false;
        }
        i = i + 1;
    }
    true
}

/// What `format_bps` writes for `bps` hundredths of a percent: the whole
/// percents, a point, two digits for the hundredths, and a percent sign.
pub open spec fn bps_text(bps: nat) -> Seq<char> {
    decimal_digits(bps / 100) + seq!['.', digit_char(bps % 100 / 10), digit_char(bps % 10), '%']
}

/// Writes basis points as a percentage with two decimals.
pub fn format_bps(bps: u16) -> (text: String)
    ensures
        text@ == bps_text(bps as nat),
{
    let mut text = String::new();
    push_decimal(&mut text, (bps / 100) as u64);
    text.push('.');
    text.push(digit_of((bps % 100 / 10) as u8));
    text.push(digit_of((bps % 10) as u8));
    text.push('%');
    assert(text@ =~= bps_text(bps as nat));
    text
}

} // verus!

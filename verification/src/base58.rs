//! Base-58 text for byte strings.
//!
//! A byte string is read as a big-endian number in base 256 and written in
//! base 58 with the symbols `1-9`, `A-Z` without `I` and `O`, and `a-z`
//! without `l`. Each leading zero byte becomes one leading `1`; there is no
//! checksum and no version byte.

use crate::radix::{lemma_transcode_inverse, lemma_transcode_shape, transcode};
use vstd::prelude::*;

verus! {

/// The digit that a symbol of the alphabet stands for, and `None` for any
/// other character.
pub open spec fn digit_of(symbol: char) -> Option<nat> {
    let code = symbol as int;
    if '1' as int <= code <= '9' as int {
        Some((code - '1' as int) as nat)
    } else if 'A' as int <= code <= 'H' as int {
        Some((code - 'A' as int + 9) as nat)
    } else if 'J' as int <= code <= 'N' as int {
        Some((code - 'J' as int + 17) as nat)
    } else if 'P' as int <= code <= 'Z' as int {
        Some((code - 'P' as int + 22) as nat)
    } else if 'a' as int <= code <= 'k' as int {
        Some((code - 'a' as int + 33) as nat)
    } else if 'm' as int <= code <= 'z' as int {
        Some((code - 'm' as int + 44) as nat)
    } else {
        None
    }
}

/// The symbol that stands for a digit below 58.
pub open spec fn symbol_of(digit: nat) -> char {
    if digit < 9 {
        ('1' as int + digit) as char
    } else if digit < 17 {
        ('A' as int + digit - 9) as char
    } else if digit < 22 {
        ('J' as int + digit - 17) as char
    } else if digit < 33 {
        ('P' as int + digit - 22) as char
    } else if digit < 44 {
        ('a' as int + digit - 33) as char
    } else {
        ('m' as int + digit - 44) as char
    }
}

/// Every character of `text` is a symbol of the alphabet.
pub open spec fn is_base58(text: Seq<char>) -> bool {
    forall|i: int| 0 <= i < text.len() ==> (#[trigger] digit_of(text[i])) is Some
}

/// The bytes of a byte string as digits in base 256.
pub open spec fn byte_digits(bytes: Seq<u8>) -> Seq<nat> {
    Seq::new(bytes.len(), |i: int| bytes[i] as nat)
}

/// Digits in base 256 as bytes.
pub open spec fn digit_bytes(digits: Seq<nat>) -> Seq<u8> {
    Seq::new(digits.len(), |i: int| digits[i] as u8)
}

/// The symbols of a base-58 text as digits in base 58.
pub open spec fn symbol_digits(text: Seq<char>) -> Seq<nat> {
    Seq::new(text.len(), |i: int| digit_of(text[i]).unwrap())
}

/// Digits in base 58 as text.
pub open spec fn digit_symbols(digits: Seq<nat>) -> Seq<char> {
    Seq::new(digits.len(), |i: int| symbol_of(digits[i]))
}

/// The base-58 text of a byte string.
pub open spec fn encoded(bytes: Seq<u8>) -> Seq<char> {
    digit_symbols(transcode(byte_digits(bytes), 256, 58))
}

/// The byte string that a text stands for, and `None` for a text that holds
/// a character outside the alphabet.
pub open spec fn decoded(text: Seq<char>) -> Option<Seq<u8>> {
    if is_base58(text) {
        Some(digit_bytes(transcode(symbol_digits(text), 58, 256)))
    } else {
        None
    }
}

/// Written in the order of their digits, the symbols spell the alphabet.
pub proof fn lemma_alphabet()
    ensures
        "123456789ABCDEFGHJKLMNPQRSTUVWXYZabcdefghijkmnopqrstuvwxyz"@ == Seq::new(
            58,
            |digit: int| symbol_of(digit as nat),
        ),
{
    reveal_strlit("123456789ABCDEFGHJKLMNPQRSTUVWXYZabcdefghijkmnopqrstuvwxyz");
}

/// Symbols and digits below 58 correspond one to one.
pub proof fn lemma_symbols()
    ensures
        forall|digit: nat| digit < 58 ==> digit_of(#[trigger] symbol_of(digit)) == Some(digit),
        forall|symbol: char|
            (#[trigger] digit_of(symbol)) is Some ==> digit_of(symbol).unwrap() < 58 && symbol_of(
                digit_of(symbol).unwrap(),
            ) == symbol,
{
}

/// The text of a byte string consists of symbols of the alphabet.
pub proof fn lemma_encoded_is_base58(bytes: Seq<u8>)
    ensures
        is_base58(encoded(bytes)),
        symbol_digits(encoded(bytes)) =~= transcode(byte_digits(bytes), 256, 58),
{
    lemma_symbols();
    lemma_transcode_shape(byte_digits(bytes), 256, 58);
}

/// Decoding the text of a byte string gives the byte string.
pub proof fn lemma_decode_encode(bytes: Seq<u8>)
    ensures
        decoded(encoded(bytes)) == Some(bytes),
{
    lemma_encoded_is_base58(bytes);
    lemma_transcode_inverse(byte_digits(bytes), 256, 58);
}

/// Two byte strings with the same text are the same byte string.
pub proof fn lemma_encoded_injective(left: Seq<u8>, right: Seq<u8>)
    requires
        encoded(left) == encoded(right),
    ensures
        left == right,
{
    lemma_decode_encode(left);
    lemma_decode_encode(right);
}

/// Encoding the byte string of a base-58 text gives the text.
pub proof fn lemma_encode_decode(text: Seq<char>)
    requires
        is_base58(text),
    ensures
        encoded(decoded(text).unwrap()) == text,
{
    lemma_symbols();
    let digits = symbol_digits(text);
    lemma_transcode_shape(digits, 58, 256);
    lemma_transcode_inverse(digits, 58, 256);
    assert(byte_digits(digit_bytes(transcode(digits, 58, 256))) =~= transcode(digits, 58, 256));
}

/// The error of `bs58::decode`, carried through and never looked into.
#[verifier::external_type_specification]
#[verifier::external_body]
pub struct ExDecodeError(bs58::decode::Error);

/// Calls `bs58::encode(..).into_string()`, with the alphabet that bs58 uses
/// by default. Believed, not proved: the string returned is the base-58
/// text of `bytes`, that is one `1` for each leading zero byte, then the
/// digits in base 58 of the big-endian value of `bytes`, most significant
/// first and without a leading `1`.
#[verifier::external_body]
pub(crate) fn bs58_encode(bytes: &[u8]) -> (text: String)
    ensures
        text@ == encoded(bytes@),
{
    bs58::encode(bytes).into_string()
}

/// Calls `bs58::decode(..).into_vec()`, with the alphabet that bs58 uses
/// by default. Believed, not proved: the call fails exactly when `text`
/// holds a character outside the alphabet, and the bytes returned otherwise
/// are one zero byte for each leading `1`, then the big-endian bytes of the
/// value of `text` in base 58, without a leading zero byte.
#[verifier::external_body]
pub(crate) fn bs58_decode(text: &str) -> (bytes: Result<Vec<u8>, bs58::decode::Error>)
    ensures
        match bytes {
            Ok(bytes) => decoded(text@) == Some(bytes@),
            Err(_) => decoded(text@) is None,
        },
{
    bs58::decode(text).into_vec()
}

} // verus!

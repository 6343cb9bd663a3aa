//! Text as bytes, and bytes as text.

use vstd::prelude::*;

verus! {

/// Number of bytes that a text occupies.
pub open spec fn utf8_len(text: Seq<char>) -> nat {
    vstd::utf8::encode_utf8(text).len()
}

/// Number of bytes that a text occupies.
pub fn byte_len(text: &str) -> (len: usize)
    ensures
        len == utf8_len(text@),
{
    text.as_bytes().len()
}

/// Text of a byte string, if it is UTF-8.
pub open spec fn utf8_text(bytes: Seq<u8>) -> Option<Seq<char>> {
    if vstd::utf8::valid_utf8(bytes) {
        Some(vstd::utf8::decode_utf8(bytes))
    } else {
        None
    }
}

/// Decodes UTF-8.
///
/// Calls `std::str::from_utf8`, which gives the text of a byte string that is
/// UTF-8 and an error for one that is not.
#[verifier::external_body]
pub(crate) fn decode_text<'a>(bytes: &'a [u8]) -> (decoded: Option<&'a str>)
    ensures
        match decoded {
            Some(decoded) => utf8_text(bytes@) == Some(decoded@),
            None => utf8_text(bytes@) is None,
        },
{
    std::str::from_utf8(bytes).ok()
}

/// Whether all bytes are ASCII.
pub open spec fn is_ascii_bytes(bytes: Seq<u8>) -> bool {
    forall|i: int| 0 <= i < bytes.len() ==> #[trigger] bytes[i] < 0x80
}

/// Characters of ASCII bytes.
pub open spec fn ascii_chars(bytes: Seq<u8>) -> Seq<char> {
    Seq::new(bytes.len(), |i: int| bytes[i] as char)
}

/// ASCII bytes are the UTF-8 form of their characters.
pub proof fn ascii_is_utf8(bytes: Seq<u8>)
    requires
        is_ascii_bytes(bytes),
    ensures
        vstd::utf8::valid_utf8(bytes),
        vstd::utf8::decode_utf8(bytes) == ascii_chars(bytes),
        vstd::utf8::encode_utf8(ascii_chars(bytes)) == bytes,
{
    let chars = ascii_chars(bytes);
    assert(vstd::utf8::is_ascii_chars(chars));
    vstd::utf8::is_ascii_chars_encode_utf8(chars);
    assert(vstd::utf8::encode_utf8(chars) =~= bytes);
    vstd::utf8::encode_utf8_valid_utf8(chars);
    vstd::utf8::encode_utf8_decode_utf8(chars);
}

/// Whether all bytes are ASCII.
pub fn is_ascii(bytes: &[u8]) -> (ascii: bool)
    ensures
        ascii == is_ascii_bytes(bytes@),
{
    let mut at: usize = 0;
    while at < bytes.len()
        invariant
            at <= bytes@.len(),
            forall|i: int| 0 <= i < at ==> #[trigger] bytes@[i] < 0x80,
        decreases bytes@.len() - at,
    {
        if bytes[at] >= 0x80 {
            return false;
        }
        at += 1;
    }
    true
}

/// The text of ASCII bytes.
pub fn ascii_text(bytes: &[u8]) -> (text: String)
    requires
        is_ascii_bytes(bytes@),
    ensures
        text@ == ascii_chars(bytes@),
{
    proof {
        ascii_is_utf8(bytes@);
    }
    match decode_text(bytes) {
        Some(text) => text.to_owned(),
        None => String::new(),
    }
}

/// Decimal digits of a number.
pub open spec fn decimal_digits(number: nat) -> Seq<u8>
    decreases number,
{
    if number < 10 {
        seq![(0x30 + number) as u8]
    } else {
        decimal_digits(number / 10).push((0x30 + number % 10) as u8)
    }
}

/// Decimal digits of a number.
pub fn decimal_bytes(number: u64) -> (digits: Vec<u8>)
    ensures
        digits@ == decimal_digits(number as nat),
        is_ascii_bytes(digits@),
    decreases number,
{
    if number < 10 {
        let mut digits: Vec<u8> = Vec::new();
        digits.push(0x30 + number as u8);
        assert(digits@ =~= decimal_digits(number as nat));
        digits
    } else {
        let mut digits: Vec<u8> = decimal_bytes(number / 10);
        digits.push(0x30 + (number % 10) as u8);
        digits
    }
}

/// Decimal text of a number.
pub open spec fn decimal_chars(number: nat) -> Seq<char> {
    ascii_chars(decimal_digits(number))
}

/// Decimal text of a number.
pub fn decimal_text(number: u64) -> (text: String)
    ensures
        text@ == decimal_chars(number as nat),
{
    ascii_text(decimal_bytes(number).as_slice())
}

} // verus!

//! Bytes as text: hexadecimal, base 58 and base 64.
//!
//! Hexadecimal text is stated digit by digit. What the base 58 and base 64
//! encoders return is known by name only: the text depends on the bytes alone,
//! and the contracts that speak of it say no more than that.
use vstd::prelude::*;

verus! {

/// The sixteen hexadecimal digits, in lower case.
pub open spec fn hex_digits() -> Seq<char> {
    seq!['0', '1', '2', '3', '4', '5', '6', '7', '8', '9', 'a', 'b', 'c', 'd', 'e', 'f']
}

/// The bytes in hexadecimal: two lower-case digits for each byte, the high half first.
pub open spec fn hex_text(bytes: Seq<u8>) -> Seq<char> {
    Seq::new(
        2 * bytes.len(),
        |i: int|
            if i % 2 == 0 {
                hex_digits()[bytes[i / 2] as int / 16]
            } else {
                hex_digits()[bytes[i / 2] as int % 16]
            },
    )
}

/// The text that the base 58 encoder gives for the bytes.
pub uninterp spec fn base58_text(bytes: Seq<u8>) -> Seq<char>;

/// The text that the base 64 encoder gives for the bytes.
pub uninterp spec fn base64_text(bytes: Seq<u8>) -> Seq<char>;

/// The bytes are few enough for their hexadecimal text to be allocated.
pub open spec fn fits_hex(len: nat) -> bool {
    2 * len <= isize::MAX
}

/// The bytes are few enough for the base 58 encoder to size its buffer: 138
/// hundredths of their number, which it computes without a check.
pub open spec fn fits_base58(len: nat) -> bool {
    len * 138 <= usize::MAX
}

/// The bytes are few enough for their base 64 text to be allocated: four
/// characters for every three bytes, the last group filled up.
pub open spec fn fits_base64(len: nat) -> bool {
    len / 3 * 4 + (if len % 3 > 0 {
        4int
    } else {
        0int
    }) <= isize::MAX
}

/// `hex::encode` on a slice of bytes: the text holds two lower-case
/// hexadecimal digits for each byte, in the order of the bytes. The text must
/// not be longer than an allocation can be.
#[verifier::external_body]
pub(crate) fn hex_encode(bytes: &[u8]) -> (text: String)
    requires
        fits_hex(bytes@.len()),
    ensures
        text@ == hex_text(bytes@),
{
    hex::encode(bytes)
}

/// `base58::ToBase58::to_base58` on a slice of bytes: the text depends on the
/// bytes alone. The encoder sizes its buffer at 138 hundredths of the number of
/// bytes, and the product must not overflow.
#[verifier::external_body]
pub(crate) fn base58_encode(bytes: &[u8]) -> (text: String)
    requires
        fits_base58(bytes@.len()),
    ensures
        text@ == base58_text(bytes@),
{
    base58::ToBase58::to_base58(bytes)
}

/// `base64::encode` on a slice of bytes: the text depends on the bytes alone.
/// The encoder panics where it cannot size or allocate four characters for
/// every three bytes.
#[verifier::external_body]
pub(crate) fn base64_encode(bytes: &[u8]) -> (text: String)
    requires
        fits_base64(bytes@.len()),
    ensures
        text@ == base64_text(bytes@),
{
    base64::encode(bytes)
}

} // verus!

//! What the library takes from other crates besides JSON: fresh identifiers,
//! random numbers, percent-encoding and base64. The contracts in this file
//! are taken on trust from the sources of those crates.

use vstd::prelude::*;

verus! {

/// The standard base64 text, with padding, of a sequence of bytes, as the
/// `base64` crate writes it.
pub uninterp spec fn base64_standard(bytes: Seq<u8>) -> Seq<char>;

/// Whether a byte stands for itself in a percent-encoded text: a letter, a
/// digit, or one of `-`, `.`, `_`, `~`.
pub open spec fn is_unreserved(b: u8) -> bool {
    ||| 0x30 <= b <= 0x39
    ||| 0x41 <= b <= 0x5a
    ||| 0x61 <= b <= 0x7a
    ||| b == 0x2d
    ||| b == 0x2e
    ||| b == 0x5f
    ||| b == 0x7e
}

/// The upper-case hexadecimal digit of a number below 16.
pub open spec fn hex_digit(d: u8) -> char {
    if d < 10 {
        ((0x30 + d) as u8) as char
    } else {
        ((0x41 + d - 10) as u8) as char
    }
}

/// The percent-encoding of a sequence of bytes: an unreserved byte stands
/// for itself, any other is `%` and its two hexadecimal digits.
pub open spec fn percent_encoded(bytes: Seq<u8>) -> Seq<char>
    decreases bytes.len(),
{
    if bytes.len() == 0 {
        Seq::empty()
    } else {
        let b = bytes.last();
        percent_encoded(bytes.drop_last()) + (if is_unreserved(b) {
            seq![b as char]
        } else {
            seq!['%', hex_digit(b / 16), hex_digit(b % 16)]
        })
    }
}

/// `Uuid::new_v4`, written in the hyphenated form. The identifier is drawn
/// at random; of every outcome only its length holds, the 36 characters of
/// the hyphenated form.
#[verifier::external_body]
pub(crate) fn fresh_id() -> (r: String)
    ensures
        r@.len() == 36,
{
    uuid::Uuid::new_v4().to_string()
}

/// `RngExt::random` of the thread's generator, at `u128`. The number is
/// drawn at random: nothing is claimed of it.
#[verifier::external_body]
pub(crate) fn random_u128() -> (r: u128) {
    rand::RngExt::random::<u128>(&mut rand::rng())
}

/// `urlencoding::encode`: the percent-encoding of the UTF-8 bytes of a text.
#[verifier::external_body]
pub(crate) fn percent_encode(text: &str) -> (r: String)
    ensures
        r@ == percent_encoded(vstd::utf8::encode_utf8(text@)),
{
    urlencoding::encode(text).into_owned()
}

/// `Engine::encode` of `general_purpose::STANDARD`: the standard base64
/// text of the bytes.
#[verifier::external_body]
pub(crate) fn base64_encode(data: &Vec<u8>) -> (r: String)
    ensures
        r@ == base64_standard(data@),
{
    base64::Engine::encode(&base64::engine::general_purpose::STANDARD, data)
}

} // verus!

//! Hexadecimal text, as the crate `hex` reads it.
use hex::FromHex;
use hex::FromHexError;
use vstd::prelude::*;

verus! {

/// Why a text is no hexadecimal string of bytes.
#[derive(Clone, Copy, Debug, PartialEq, Eq)]
pub enum HexError {
    /// The byte at `index`, read as the character `c`, is no digit.
    InvalidHexCharacter { c: char, index: usize },
    /// A byte takes two digits.
    OddLength,
    /// The digits do not fill the place that is meant for them.
    InvalidStringLength,
}

/// What a hexadecimal digit of either case is worth.
pub open spec fn digit_value(digit: u8) -> Option<u8> {
    if 48 <= digit <= 57 {
        Some((digit - 48) as u8)
    } else if 65 <= digit <= 70 {
        Some((digit - 55) as u8)
    } else if 97 <= digit <= 102 {
        Some((digit - 87) as u8)
    } else {
        None
    }
}

/// Whether every byte of the text is a hexadecimal digit.
pub open spec fn all_digits(text: Seq<u8>) -> bool {
    forall|i: int| 0 <= i < text.len() ==> digit_value(#[trigger] text[i]) is Some
}

/// Whether the text is read: an even number of digits.
pub open spec fn is_hex(text: Seq<u8>) -> bool {
    text.len() % 2 == 0 && all_digits(text)
}

/// The bytes that an even number of digits stands for, two digits for each and
/// the higher one first.
pub open spec fn digit_pairs(text: Seq<u8>) -> Seq<u8> {
    Seq::new(
        text.len() / 2,
        |i: int|
            (16 * digit_value(text[2 * i])->Some_0 + digit_value(text[2 * i + 1])->Some_0) as u8,
    )
}

/// Whether `error` is what keeps the text from being read: an odd length before
/// anything else, then the first byte that is no digit.
pub open spec fn hex_rejects(text: Seq<u8>, error: HexError) -> bool {
    match error {
        HexError::OddLength => text.len() % 2 == 1,
        HexError::InvalidHexCharacter { c, index } => {
            &&& text.len() % 2 == 0
            &&& index < text.len()
            &&& c == text[index as int] as char
            &&& digit_value(text[index as int]) is None
            &&& all_digits(text.take(index as int))
        },
        HexError::InvalidStringLength => false,
    }
}

/// Calls `<Vec<u8> as hex::FromHex>::from_hex`. An even number of digits, of
/// either case, is read as the bytes that the pairs stand for; any other text is
/// refused for the reason that [`hex_rejects`] gives.
#[verifier::external_body]
pub(crate) fn from_hex(text: &[u8]) -> (r: Result<Vec<u8>, HexError>)
    ensures
        match r {
            Ok(bytes) => is_hex(text@) && bytes@ == digit_pairs(text@),
            Err(error) => hex_rejects(text@, error),
        },
{
    Vec::<u8>::from_hex(text).map_err(|error| match error {
        FromHexError::InvalidHexCharacter { c, index } => HexError::InvalidHexCharacter { c, index },
        FromHexError::OddLength => HexError::OddLength,
        FromHexError::InvalidStringLength => HexError::InvalidStringLength,
    })
}

/// How a refusal of a text is written out.
pub uninterp spec fn hex_error_text(error: HexError) -> Seq<char>;

/// Whether a character stands for itself between quotation marks: an ASCII letter or
/// digit.
pub open spec fn is_plain(c: char) -> bool {
    48 <= c as int <= 57 || 65 <= c as int <= 90 || 97 <= c as int <= 122
}

/// Formats with the `Display` of `hex::FromHexError`, whose text [`hex_error_text`]
/// names. The text of a length is fixed. That of a byte quotes the character as its
/// `Debug` does and gives the place in decimal; how characters other than letters and
/// digits are quoted is left to the name.
#[verifier::external_body]
pub(crate) fn error_text(error: HexError) -> (r: String)
    ensures
        r@ == hex_error_text(error),
        error is OddLength ==> r@ == "Odd number of digits"@,
        error is InvalidStringLength ==> r@ == "Invalid string length"@,
        error matches HexError::InvalidHexCharacter { c, index } ==> is_plain(c) ==> r@
            == "Invalid character '"@ + seq![c] + "' at position "@
            + crate::outside::words::decimal(index as nat),
{
    format!("{}", match error {
        HexError::InvalidHexCharacter { c, index } => FromHexError::InvalidHexCharacter { c, index },
        HexError::OddLength => FromHexError::OddLength,
        HexError::InvalidStringLength => FromHexError::InvalidStringLength,
    })
}

} // verus!

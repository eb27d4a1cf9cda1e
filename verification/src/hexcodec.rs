//! Hexadecimal text, the form in which the protocol carries every byte string.
//! The conversions themselves are the `hex` crate's; this module states what
//! they compute.
use vstd::prelude::*;
use vstd::utf8::*;
use crate::decimal::nat_numeral;

verus! {

/// The value of one hexadecimal digit, in either case.
pub open spec fn hex_digit_value(b: u8) -> Option<nat> {
    if 48 <= b <= 57 {
        Some((b - 48) as nat)
    } else if 97 <= b <= 102 {
        Some((b - 87) as nat)
    } else if 65 <= b <= 70 {
        Some((b - 55) as nat)
    } else {
        None
    }
}

/// The position of the first byte at or after `j` that is not a hexadecimal digit.
pub open spec fn first_non_digit(data: Seq<u8>, j: int) -> Option<int>
    decreases data.len() - j,
{
    if j < 0 || j >= data.len() {
        None
    } else if hex_digit_value(data[j]) is None {
        Some(j)
    } else {
        first_non_digit(data, j + 1)
    }
}

/// Why a text is not a hexadecimal byte string.
#[derive(PartialEq, Eq, Structural, Clone, Copy, Debug)]
pub enum HexError {
    InvalidHexCharacter { c: char, index: usize },
    OddLength,
    InvalidStringLength,
}

/// The bytes that a hexadecimal text of even length stands for, two digits a byte,
/// the high half first.
pub open spec fn hex_pairs_value(data: Seq<u8>) -> Seq<u8> {
    Seq::new(
        data.len() / 2,
        |i: int|
            (hex_digit_value(data[2 * i])->0 * 16 + hex_digit_value(data[2 * i + 1])->0) as u8,
    )
}

/// What decoding a hexadecimal text (given by its bytes) yields: an odd length is
/// refused first, then the first byte that is not a digit.
pub open spec fn hex_decode_spec(data: Seq<u8>) -> Result<Seq<u8>, HexError> {
    if data.len() % 2 != 0 {
        Err(HexError::OddLength)
    } else {
        match first_non_digit(data, 0) {
            Some(j) => Err(HexError::InvalidHexCharacter { c: data[j] as char, index: j as usize }),
            None => Ok(hex_pairs_value(data)),
        }
    }
}

/// A decoding result, with the bytes taken by their view.
pub open spec fn decoded_view(r: Result<Vec<u8>, HexError>) -> Result<Seq<u8>, HexError> {
    match r {
        Ok(v) => Ok(v@),
        Err(e) => Err(e),
    }
}

/// The lower-case digit character of a value below 16.
pub open spec fn nibble_char(n: nat) -> char {
    if n < 10 {
        ((48 + n) as u8) as char
    } else {
        ((87 + n) as u8) as char
    }
}

/// The lower-case hexadecimal text of a byte string, two digits a byte.
pub open spec fn hex_lower(data: Seq<u8>) -> Seq<char> {
    Seq::new(
        2 * data.len(),
        |k: int|
            if k % 2 == 0 {
                nibble_char((data[k / 2] / 16) as nat)
            } else {
                nibble_char((data[k / 2] % 16) as nat)
            },
    )
}

/// What `{:?}` prints for a character: the character between single quotes, with
/// the escapes of `char::escape_debug`.
pub uninterp spec fn char_debug_text(c: char) -> Seq<char>;

/// The message for a character that is not a hexadecimal digit at a position.
pub open spec fn invalid_character_text(c: char, index: usize) -> Seq<char> {
    "Invalid character "@ + char_debug_text(c) + " at position "@ + nat_numeral(index as nat)
}

/// The message of a decoding failure.
pub open spec fn hex_error_text_spec(e: HexError) -> Seq<char> {
    match e {
        HexError::InvalidHexCharacter { c, index } => invalid_character_text(c, index),
        HexError::OddLength => "Odd number of digits"@,
        HexError::InvalidStringLength => "Invalid string length"@,
    }
}

/// `hex::decode`: the bytes that a hexadecimal text stands for, or why it stands
/// for none. An odd length is refused first; otherwise the first byte that is not
/// a digit (`0-9`, `a-f`, `A-F`) is reported, as a character, with its position;
/// otherwise each pair of digits gives one byte, the high half first.
#[verifier::external_body]
pub(crate) fn hex_decode(data: &[u8]) -> (res: Result<Vec<u8>, HexError>)
    ensures
        decoded_view(res) == hex_decode_spec(data@),
{
    match hex::decode(data) {
        Ok(v) => Ok(v),
        Err(hex::FromHexError::InvalidHexCharacter { c, index }) => Err(
            HexError::InvalidHexCharacter { c, index },
        ),
        Err(hex::FromHexError::OddLength) => Err(HexError::OddLength),
        Err(hex::FromHexError::InvalidStringLength) => Err(HexError::InvalidStringLength),
    }
}

/// `hex::encode`: the lower-case hexadecimal text of the bytes, two digits a byte,
/// the high half first.
#[verifier::external_body]
pub(crate) fn hex_encode(data: &[u8]) -> (res: String)
    ensures
        res@ == hex_lower(data@),
{
    hex::encode(data)
}

/// The `Display` text of `hex::FromHexError`: fixed texts for the two length
/// errors; for a bad character, `Invalid character `, the character as `{:?}`
/// prints it, ` at position ` and the position in decimal. The character's `{:?}`
/// form is left unstated (`char_debug_text`): it depends on which characters std
/// counts as printable.
#[verifier::external_body]
pub(crate) fn hex_error_text(e: &HexError) -> (res: String)
    ensures
        *e matches HexError::InvalidHexCharacter { c, index } ==> res@ == "Invalid character "@
            + char_debug_text(c) + " at position "@ + nat_numeral(index as nat),
        *e is OddLength ==> res@ == "Odd number of digits"@,
        *e is InvalidStringLength ==> res@ == "Invalid string length"@,
{
    let outside = match *e {
        HexError::InvalidHexCharacter { c, index } => hex::FromHexError::InvalidHexCharacter {
            c,
            index,
        },
        HexError::OddLength => hex::FromHexError::OddLength,
        HexError::InvalidStringLength => hex::FromHexError::InvalidStringLength,
    };
    outside.to_string()
}

/// The message of a decoding failure, as `{}` prints it.
pub fn error_text(e: &HexError) -> (res: String)
    ensures
        res@ == hex_error_text_spec(*e),
{
    hex_error_text(e)
}

/// Decoding the text that encoding gives yields the bytes back.
pub proof fn lemma_decode_of_encode(data: Seq<u8>)
    ensures
        hex_decode_spec(encode_utf8(hex_lower(data))) == Ok::<Seq<u8>, HexError>(data),
{
    let text = hex_lower(data);
    assert forall|k: int| 0 <= k < text.len() implies '\0' <= #[trigger] text[k] <= '\u{7f}' by {
        let b = data[k / 2];
        assert(b / 16 < 16 && b % 16 < 16);
    }
    assert(is_ascii_chars(text));
    is_ascii_chars_encode_utf8(text);
    let bytes = encode_utf8(text);
    assert forall|k: int| 0 <= k < bytes.len() implies hex_digit_value(#[trigger] bytes[k]) is Some
        && (k % 2 == 0 ==> hex_digit_value(bytes[k])->0 == data[k / 2] / 16)
        && (k % 2 == 1 ==> hex_digit_value(bytes[k])->0 == data[k / 2] % 16) by {
        assert(text[k] as u8 == bytes[k]);
        let b = data[k / 2];
        assert(b / 16 < 16 && b % 16 < 16);
    }
    lemma_no_non_digit(bytes, 0);
    assert(hex_pairs_value(bytes) =~= data) by {
        assert forall|i: int| 0 <= i < data.len() implies #[trigger] hex_pairs_value(bytes)[i]
            == data[i] by {
            assert(hex_digit_value(bytes[2 * i]) is Some);
            assert(hex_digit_value(bytes[2 * i + 1]) is Some);
            assert((2 * i) / 2 == i);
            assert((2 * i + 1) / 2 == i);
            assert(data[i] as int == (data[i] / 16) * 16 + data[i] % 16);
        }
    }
}

proof fn lemma_no_non_digit(data: Seq<u8>, j: int)
    requires
        0 <= j,
        forall|k: int| 0 <= k < data.len() ==> hex_digit_value(#[trigger] data[k]) is Some,
    ensures
        first_non_digit(data, j) is None,
    decreases data.len() - j,
{
    if j < data.len() {
        lemma_no_non_digit(data, j + 1);
    }
}

} // verus!

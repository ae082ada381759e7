//! Hex text and the bytes it stands for.
//!
//! A text is taken by its bytes. Every hex digit is an ASCII character, so a
//! hex text has one byte for each of its characters.

use crate::error::HexError;
use vstd::prelude::*;

verus! {

/// Whether `c` is one of `0`-`9`, `a`-`f`, `A`-`F`.
pub open spec fn is_hex_digit(c: u8) -> bool {
    ||| 0x30 <= c <= 0x39
    ||| 0x41 <= c <= 0x46
    ||| 0x61 <= c <= 0x66
}

/// The number that the hex digit `c` stands for.
pub open spec fn digit_value(c: u8) -> int
    recommends
        is_hex_digit(c),
{
    if 0x30 <= c <= 0x39 {
        c - 0x30
    } else if 0x41 <= c <= 0x46 {
        c - 0x41 + 10
    } else {
        c - 0x61 + 10
    }
}

/// The lowercase hex digit for `n`.
pub open spec fn lower_digit(n: u8) -> u8
    recommends
        n < 16,
{
    if n < 10 {
        (0x30 + n) as u8
    } else {
        (0x61 + n - 10) as u8
    }
}

/// Whether `c` is one of `0`-`9`, `a`-`f`.
pub open spec fn is_lower_hex_digit(c: u8) -> bool {
    ||| 0x30 <= c <= 0x39
    ||| 0x61 <= c <= 0x66
}

/// Whether `text` is hex: an even number of hex digits.
pub open spec fn is_hex_text(text: Seq<u8>) -> bool {
    &&& text.len() % 2 == 0
    &&& forall|i: int| 0 <= i < text.len() ==> is_hex_digit(#[trigger] text[i])
}

/// Whether `index` is the place of the first byte of `text` that is no hex
/// digit.
pub open spec fn is_first_invalid(text: Seq<u8>, index: int) -> bool {
    &&& 0 <= index < text.len()
    &&& !is_hex_digit(text[index])
    &&& forall|j: int| 0 <= j < index ==> is_hex_digit(#[trigger] text[j])
}

/// Whether `fault` is the reason for which `text` is not hex: an odd length
/// comes before a bad digit, and of the bad digits the first one counts.
pub open spec fn is_fault_of(text: Seq<u8>, fault: HexError) -> bool {
    match fault {
        HexError::OddLength => text.len() % 2 != 0,
        HexError::InvalidCharacter { c, index } => {
            &&& text.len() % 2 == 0
            &&& is_first_invalid(text, index as int)
            &&& c == text[index as int] as char
        },
    }
}

/// The bytes that `text` stands for: each pair of digits is one byte, the
/// high nibble first.
pub open spec fn decoded(text: Seq<u8>) -> Seq<u8>
    recommends
        is_hex_text(text),
{
    Seq::new(
        text.len() / 2,
        |i: int| (16 * digit_value(text[2 * i]) + digit_value(text[2 * i + 1])) as u8,
    )
}

/// The lowercase hex text for `bytes`.
pub open spec fn encoded(bytes: Seq<u8>) -> Seq<u8> {
    Seq::new(
        2 * bytes.len(),
        |i: int|
            if i % 2 == 0 {
                lower_digit(bytes[i / 2] / 16)
            } else {
                lower_digit(bytes[i / 2] % 16)
            },
    )
}

/// The bytes of `text` in UTF-8, which is what the codec reads.
pub open spec fn text_bytes(text: Seq<char>) -> Seq<u8> {
    vstd::utf8::encode_utf8(text)
}

/// Whether `c` is one of the characters `0`-`9`, `a`-`f`, `A`-`F`.
pub open spec fn is_hex_char(c: char) -> bool {
    ||| '0' <= c <= '9'
    ||| 'A' <= c <= 'F'
    ||| 'a' <= c <= 'f'
}

/// Whether `text` is an even number of hex digit characters.
pub open spec fn is_hex_chars(text: Seq<char>) -> bool {
    &&& text.len() % 2 == 0
    &&& forall|i: int| 0 <= i < text.len() ==> is_hex_char(#[trigger] text[i])
}

/// Decoding the encoding of `bytes` gives `bytes` back, and the encoding is
/// hex text of twice the length, in digits and lowercase letters only.
pub proof fn encode_then_decode(bytes: Seq<u8>)
    ensures
        is_hex_text(encoded(bytes)),
        encoded(bytes).len() == 2 * bytes.len(),
        forall|i: int| 0 <= i < encoded(bytes).len() ==> is_lower_hex_digit(#[trigger] encoded(bytes)[i]),
        decoded(encoded(bytes)) == bytes,
{
    let text = encoded(bytes);
    assert forall|i: int| 0 <= i < text.len() implies is_lower_hex_digit(#[trigger] text[i]) by {
        let b = bytes[i / 2];
        assert(0 <= b / 16 < 16 && 0 <= b % 16 < 16);
    }
    assert forall|k: int| 0 <= k < bytes.len() implies #[trigger] decoded(text)[k] == bytes[k] by {
        let b = bytes[k];
        assert((2 * k) / 2 == k && (2 * k) % 2 == 0);
        assert((2 * k + 1) / 2 == k && (2 * k + 1) % 2 == 1);
        assert(text[2 * k] == lower_digit(b / 16));
        assert(text[2 * k + 1] == lower_digit(b % 16));
        assert(0 <= b / 16 < 16 && 0 <= b % 16 < 16);
        assert(16 * (b / 16) + b % 16 == b);
    }
    assert(decoded(text) =~= bytes);
}

/// A text all of whose bytes are below 128 has ASCII characters only.
proof fn ascii_bytes_have_ascii_chars(text: Seq<char>)
    requires
        forall|i: int| 0 <= i < text_bytes(text).len() ==> #[trigger] text_bytes(text)[i] < 0x80,
    ensures
        vstd::utf8::is_ascii_chars(text),
    decreases text.len(),
{
    if text.len() > 0 {
        let c = text[0] as u32;
        let head = vstd::utf8::encode_scalar(c);
        let rest = text.drop_first();
        assert(text_bytes(text) == head + text_bytes(rest));
        vstd::utf8::char_is_scalar(text[0]);
        assert(head.len() >= 1);
        assert(text_bytes(text)[0] == head[0]);
        assert(head[0] >= 0x80 || c <= 0x7f) by {
            assert((0xC0u8 | ((c >> 6) & 0x1F) as u8) >= 0x80) by (bit_vector);
            assert((0xE0u8 | ((c >> 12) & 0x0F) as u8) >= 0x80) by (bit_vector);
            assert((0xF0u8 | ((c >> 18) & 0x7) as u8) >= 0x80) by (bit_vector);
        }
        assert(head.len() == 1);
        assert forall|i: int| 0 <= i < text_bytes(rest).len() implies #[trigger] text_bytes(
            rest,
        )[i] < 0x80 by {
            assert(text_bytes(rest)[i] == text_bytes(text)[i + 1]);
        }
        ascii_bytes_have_ascii_chars(rest);
        assert forall|i: int| 0 <= i < text.len() implies '\0' <= #[trigger] text[i]
            <= '\u{7f}' by {
            if i > 0 {
                assert(text[i] == rest[i - 1]);
            } else {
                vstd::utf8::char_u32_cast(text[0], c);
            }
        }
    }
}

/// A text is hex by its bytes exactly if it is hex by its characters, and
/// then each byte is the code of the character at the same place.
pub proof fn hex_text_by_characters(text: Seq<char>)
    ensures
        is_hex_text(text_bytes(text)) <==> is_hex_chars(text),
        is_hex_chars(text) ==> text_bytes(text) == text.map_values(|c: char| c as u8),
{
    let bytes = text_bytes(text);
    if is_hex_text(bytes) {
        assert forall|i: int| 0 <= i < bytes.len() implies #[trigger] bytes[i] < 0x80 by {
            assert(is_hex_digit(bytes[i]));
        }
        ascii_bytes_have_ascii_chars(text);
    }
    if is_hex_chars(text) {
        assert forall|i: int| 0 <= i < text.len() implies '\0' <= #[trigger] text[i]
            <= '\u{7f}' by {
            assert(is_hex_char(text[i]));
        }
    }
    if vstd::utf8::is_ascii_chars(text) {
        vstd::utf8::is_ascii_chars_encode_utf8(text);
        assert(bytes =~= text.map_values(|c: char| c as u8));
        if is_hex_text(bytes) {
            assert forall|i: int| 0 <= i < text.len() implies is_hex_char(#[trigger] text[i]) by {
                assert(is_hex_digit(bytes[i]));
                assert(bytes[i] == text[i] as u8);
            }
        }
        if is_hex_chars(text) {
            assert forall|i: int| 0 <= i < bytes.len() implies is_hex_digit(#[trigger] bytes[i]) by {
                assert(is_hex_char(text[i]));
                assert(bytes[i] == text[i] as u8);
            }
        }
    }
}

/// What `hex::decode_to_slice` reports when it refuses its arguments.
enum SliceFault {
    OddLength,
    LengthMismatch,
    InvalidCharacter { c: char, index: usize },
}

/// Calls `hex::decode_to_slice` on `data` and the whole of `out`.
///
/// Trusted: the contract restates that function. It refuses an odd number of
/// text bytes, then a buffer that is not half as long as the text, then the
/// first byte that is no hex digit, which it reports with its index. Where it
/// refuses nothing it has filled the buffer with one byte for each pair of
/// digits, the high nibble first. It never changes the buffer's length.
#[verifier::external_body]
fn decode_to_slice(data: &[u8], out: &mut Vec<u8>) -> (r: Result<(), SliceFault>)
    ensures
        final(out)@.len() == old(out)@.len(),
        match r {
            Ok(()) => {
                &&& is_hex_text(data@)
                &&& data@.len() / 2 == old(out)@.len()
                &&& final(out)@ == decoded(data@)
            },
            Err(SliceFault::OddLength) => data@.len() % 2 != 0,
            Err(SliceFault::LengthMismatch) => {
                &&& data@.len() % 2 == 0
                &&& data@.len() / 2 != old(out)@.len()
            },
            Err(SliceFault::InvalidCharacter { c, index }) => {
                &&& data@.len() % 2 == 0
                &&& data@.len() / 2 == old(out)@.len()
                &&& is_first_invalid(data@, index as int)
                &&& c == data@[index as int] as char
            },
        },
{
    match hex::decode_to_slice(data, out.as_mut_slice()) {
        Ok(()) => Ok(()),
        Err(hex::FromHexError::OddLength) => Err(SliceFault::OddLength),
        Err(hex::FromHexError::InvalidStringLength) => Err(SliceFault::LengthMismatch),
        Err(hex::FromHexError::InvalidHexCharacter { c, index }) => Err(
            SliceFault::InvalidCharacter { c, index },
        ),
    }
}

/// Decodes hex text into the bytes it stands for.
///
/// Succeeds exactly on hex text. Every other text is refused with its fault:
/// nothing is decoded in part.
pub fn decode(text: &str) -> (r: Result<Vec<u8>, HexError>)
    ensures
        r is Ok <==> is_hex_chars(text@),
        match r {
            Ok(bytes) => is_hex_text(text_bytes(text@)) && bytes@ == decoded(text_bytes(text@)),
            Err(fault) => !is_hex_text(text_bytes(text@)) && is_fault_of(text_bytes(text@), fault),
        },
{
    proof {
        hex_text_by_characters(text@);
    }
    let data = text.as_bytes();
    let mut out: Vec<u8> = vec![0u8; data.len() / 2];
    match decode_to_slice(data, &mut out) {
        Ok(()) => Ok(out),
        Err(SliceFault::OddLength) => Err(HexError::OddLength),
        Err(SliceFault::InvalidCharacter { c, index }) => Err(
            HexError::InvalidCharacter { c, index },
        ),
        Err(SliceFault::LengthMismatch) => vstd::pervasive::unreached(),
    }
}

/// The lowercase hex digit for `n`, as a text of one character.
fn digit_text(n: u8) -> (s: &'static str)
    requires
        n < 16,
    ensures
        s@ == seq![lower_digit(n) as char],
{
    proof {
        reveal_strlit("0");
        reveal_strlit("1");
        reveal_strlit("2");
        reveal_strlit("3");
        reveal_strlit("4");
        reveal_strlit("5");
        reveal_strlit("6");
        reveal_strlit("7");
        reveal_strlit("8");
        reveal_strlit("9");
        reveal_strlit("a");
        reveal_strlit("b");
        reveal_strlit("c");
        reveal_strlit("d");
        reveal_strlit("e");
        reveal_strlit("f");
    }
    let s = match n {
        0 => "0",
        1 => "1",
        2 => "2",
        3 => "3",
        4 => "4",
        5 => "5",
        6 => "6",
        7 => "7",
        8 => "8",
        9 => "9",
        10 => "a",
        11 => "b",
        12 => "c",
        13 => "d",
        14 => "e",
        _ => "f",
    };
    assert(s@ =~= seq![lower_digit(n) as char]);
    s
}

/// Encodes `bytes` as lowercase hex text, two digits for each byte.
pub fn encode(bytes: &[u8]) -> (text: String)
    ensures
        text_bytes(text@) == encoded(bytes@),
        text@.len() == 2 * bytes@.len(),
        forall|i: int| 0 <= i < text@.len() ==> #[trigger] text@[i] == encoded(bytes@)[i] as char,
{
    let mut text = String::new();
    let mut i: usize = 0;
    while i < bytes.len()
        invariant
            i <= bytes@.len(),
            text@.len() == 2 * i,
            forall|k: int| 0 <= k < 2 * i ==> #[trigger] text@[k] == encoded(bytes@)[k] as char,
        decreases bytes@.len() - i,
    {
        let b = bytes[i];
        let ghost before = text@;
        text.append(digit_text(b / 16));
        text.append(digit_text(b % 16));
        proof {
            let j = i as int;
            assert((2 * j) / 2 == j && (2 * j) % 2 == 0);
            assert((2 * j + 1) / 2 == j && (2 * j + 1) % 2 == 1);
            assert(text@ =~= before.push(lower_digit(b / 16) as char).push(
                lower_digit(b % 16) as char,
            ));
        }
        i += 1;
    }
    proof {
        let digits = encoded(bytes@);
        assert forall|k: int| 0 <= k < text@.len() implies '\0' <= #[trigger] text@[k]
            <= '\u{7f}' by {
            let b = bytes@[k / 2];
            assert(b / 16 < 16 && b % 16 < 16);
            assert(text@[k] == digits[k] as char);
        }
        vstd::utf8::is_ascii_chars_encode_utf8(text@);
        assert forall|k: int| 0 <= k < digits.len() implies text_bytes(text@)[k]
            == #[trigger] digits[k] by {
            let b = bytes@[k / 2];
            assert(b / 16 < 16 && b % 16 < 16);
            assert(text@[k] == digits[k] as char);
        }
        assert(text_bytes(text@) =~= digits);
    }
    text
}

} // verus!

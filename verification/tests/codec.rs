use zeos_verifier::codec::{decode, encode};
use zeos_verifier::error::HexError;

#[test]
fn decode_reads_lowercase_digits() {
    assert_eq!(decode("0fa9"), Ok(vec![0x0f, 0xa9]));
    assert_eq!(decode("6b697769"), Ok(b"kiwi".to_vec()));
}

#[test]
fn decode_reads_uppercase_and_mixed_digits() {
    assert_eq!(decode("F9B4CA"), Ok(vec![0xf9, 0xb4, 0xca]));
    assert_eq!(decode("f9B4Ca"), Ok(vec![0xf9, 0xb4, 0xca]));
    assert_eq!(decode("AbCdEf"), Ok(vec![0xab, 0xcd, 0xef]));
}

#[test]
fn decode_puts_the_high_nibble_first() {
    assert_eq!(decode("10"), Ok(vec![16]));
    assert_eq!(decode("01"), Ok(vec![1]));
    assert_eq!(decode("f0"), Ok(vec![240]));
    assert_eq!(decode("ff"), Ok(vec![255]));
    assert_eq!(decode("00"), Ok(vec![0]));
}

#[test]
fn decode_of_empty_text_is_empty() {
    assert_eq!(decode(""), Ok(Vec::new()));
}

#[test]
fn decode_refuses_odd_length() {
    assert_eq!(decode("abc"), Err(HexError::OddLength));
    assert_eq!(decode("0"), Err(HexError::OddLength));
    assert_eq!(decode("123"), Err(HexError::OddLength));
}

#[test]
fn decode_refuses_a_character_that_is_no_digit() {
    assert_eq!(decode("zz"), Err(HexError::InvalidCharacter { c: 'z', index: 0 }));
    assert_eq!(decode("0g"), Err(HexError::InvalidCharacter { c: 'g', index: 1 }));
    assert_eq!(decode("00ffG0"), Err(HexError::InvalidCharacter { c: 'G', index: 4 }));
}

#[test]
fn decode_reports_the_first_bad_character() {
    assert_eq!(decode("0x1y"), Err(HexError::InvalidCharacter { c: 'x', index: 1 }));
    assert_eq!(decode("a-b+"), Err(HexError::InvalidCharacter { c: '-', index: 1 }));
}

#[test]
fn decode_reports_odd_length_before_a_bad_character() {
    assert_eq!(decode("zzz"), Err(HexError::OddLength));
}

#[test]
fn decode_refuses_prefix_and_separators() {
    assert_eq!(decode("0x12"), Err(HexError::InvalidCharacter { c: 'x', index: 1 }));
    assert_eq!(decode("12 34"), Err(HexError::OddLength));
    assert_eq!(decode("12:34:"), Err(HexError::InvalidCharacter { c: ':', index: 2 }));
    assert_eq!(decode(" 1234 "), Err(HexError::InvalidCharacter { c: ' ', index: 0 }));
}

#[test]
fn decode_refuses_digits_next_to_the_ranges() {
    assert_eq!(decode("/0"), Err(HexError::InvalidCharacter { c: '/', index: 0 }));
    assert_eq!(decode(":0"), Err(HexError::InvalidCharacter { c: ':', index: 0 }));
    assert_eq!(decode("@0"), Err(HexError::InvalidCharacter { c: '@', index: 0 }));
    assert_eq!(decode("G0"), Err(HexError::InvalidCharacter { c: 'G', index: 0 }));
    assert_eq!(decode("`0"), Err(HexError::InvalidCharacter { c: '`', index: 0 }));
    assert_eq!(decode("g0"), Err(HexError::InvalidCharacter { c: 'g', index: 0 }));
}

#[test]
fn decode_goes_by_the_bytes_of_the_text() {
    // One character of two bytes: the length is even, the first byte is bad.
    assert_eq!(decode("\u{e9}"), Err(HexError::InvalidCharacter { c: '\u{c3}', index: 0 }));
    assert_eq!(decode("0\u{e9}"), Err(HexError::OddLength));
    assert_eq!(decode("00\u{e9}"), Err(HexError::InvalidCharacter { c: '\u{c3}', index: 2 }));
}

#[test]
fn decode_agrees_with_the_hex_crate() {
    for text in ["", "00", "0fa9", "DEADbeef", "48656c6c6f20776f726c6421"] {
        assert_eq!(decode(text), Ok(hex::decode(text).unwrap()));
    }
    for text in ["a", "zz", "0g", "12345", "\u{e9}"] {
        assert!(decode(text).is_err());
        assert!(hex::decode(text).is_err());
    }
}

#[test]
fn encode_writes_two_lowercase_digits_for_each_byte() {
    assert_eq!(encode(&[]), "");
    assert_eq!(encode(&[0]), "00");
    assert_eq!(encode(&[1, 2, 3, 15, 16]), "0102030f10");
    assert_eq!(encode(&[0xf9, 0xb4, 0xca]), "f9b4ca");
    assert_eq!(encode(b"Hello world!"), "48656c6c6f20776f726c6421");
}

#[test]
fn encode_agrees_with_the_hex_crate() {
    let bytes: Vec<u8> = (0..=255).collect();
    assert_eq!(encode(&bytes), hex::encode(&bytes));
}

#[test]
fn encode_gives_even_length_and_no_uppercase() {
    let bytes: Vec<u8> = (0..=255).rev().collect();
    let text = encode(&bytes);
    assert_eq!(text.len(), 2 * bytes.len());
    assert!(text.bytes().all(|c| matches!(c, b'0'..=b'9' | b'a'..=b'f')));
}

#[test]
fn decode_undoes_encode() {
    let all: Vec<u8> = (0..=255).collect();
    assert_eq!(decode(&encode(&all)), Ok(all));
    assert_eq!(decode(&encode(&[])), Ok(Vec::new()));
    assert_eq!(decode(&encode(&[0xde, 0xad, 0xbe, 0xef])), Ok(vec![0xde, 0xad, 0xbe, 0xef]));
}

#[test]
fn decode_undoes_uppercase_too() {
    let all: Vec<u8> = (0..=255).collect();
    assert_eq!(decode(&encode(&all).to_uppercase()), Ok(all));
}

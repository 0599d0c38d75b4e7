//! Bytes written as hexadecimal digits.
use vstd::prelude::*;

verus! {

/// The lower-case hexadecimal digit for a value below 16.
pub open spec fn hex_digit(value: int) -> char {
    if value < 10 {
        (48 + value) as char
    } else {
        (87 + value) as char
    }
}

/// Bytes as lower-case hexadecimal digits.
pub open spec fn hex_text(bytes: Seq<u8>) -> Seq<char> {
    Seq::new(
        2 * bytes.len(),
        |i: int|
            hex_digit(
                if i % 2 == 0 {
                    bytes[i / 2] as int / 16
                } else {
                    bytes[i / 2] as int % 16
                },
            ),
    )
}

/// Bytes as the JSON text that nodes write them in: a string of hexadecimal digits behind `0x`.
pub open spec fn json_hex(bytes: Seq<u8>) -> Seq<char> {
    seq!['"', '0', 'x'] + hex_text(bytes) + seq!['"']
}

/// The value of a hexadecimal digit of either case.
pub open spec fn digit_value(digit: char) -> Option<int> {
    if '0' <= digit <= '9' {
        Some(digit as int - 48)
    } else if 'a' <= digit <= 'f' {
        Some(digit as int - 87)
    } else if 'A' <= digit <= 'F' {
        Some(digit as int - 55)
    } else {
        None
    }
}

/// A text without the `0x` or `0X` that it starts with.
pub open spec fn without_prefix(text: Seq<char>) -> Seq<char> {
    if text.len() >= 2 && text[0] == '0' && (text[1] == 'x' || text[1] == 'X') {
        text.skip(2)
    } else {
        text
    }
}

/// A text consists of pairs of hexadecimal digits.
pub open spec fn is_hex(digits: Seq<char>) -> bool {
    &&& digits.len() % 2 == 0
    &&& forall|i: int| 0 <= i < digits.len() ==> digit_value(#[trigger] digits[i]) is Some
}

/// The bytes that pairs of hexadecimal digits write.
pub open spec fn unhex(digits: Seq<char>) -> Seq<u8> {
    Seq::new(
        (digits.len() / 2) as nat,
        |i: int| (16 * digit_value(digits[2 * i])->0 + digit_value(digits[2 * i + 1])->0) as u8,
    )
}

/// The bytes that a text of hexadecimal digits writes, behind an optional `0x`.
pub open spec fn spec_decode_hex(text: Seq<char>) -> Option<Seq<u8>> {
    if is_hex(without_prefix(text)) {
        Some(unhex(without_prefix(text)))
    } else {
        None
    }
}

/// The 32 bytes that a text of hexadecimal digits writes.
pub open spec fn spec_parse_b256(text: Seq<char>) -> Option<Seq<u8>> {
    match spec_decode_hex(text) {
        Some(bytes) => if bytes.len() == 32 {
            Some(bytes)
        } else {
            None
        },
        None => None,
    }
}

/// What was written as hexadecimal digits, with or without `0x` in front, is read back.
pub proof fn law_hex_is_read_back(bytes: Seq<u8>)
    ensures
        spec_decode_hex(seq!['0', 'x'] + hex_text(bytes)) == Some(bytes),
        spec_decode_hex(hex_text(bytes)) == Some(bytes),
{
    let digits = hex_text(bytes);
    lemma_hex_digits(bytes);
    assert((seq!['0', 'x'] + digits).skip(2) =~= digits);
    assert(unhex(digits) =~= bytes);
    assert(without_prefix(digits) == digits) by {
        if digits.len() >= 2 {
            assert(digit_value(digits[1]) is Some);
        }
    }
}

/// The digits of a byte stand for its two halves.
proof fn lemma_hex_digits(bytes: Seq<u8>)
    ensures
        is_hex(hex_text(bytes)),
        forall|i: int|
            0 <= i < bytes.len() ==> {
                &&& digit_value(hex_text(bytes)[2 * i]) == Some(#[trigger] bytes[i] as int / 16)
                &&& digit_value(hex_text(bytes)[2 * i + 1]) == Some(bytes[i] as int % 16)
            },
{
    let digits = hex_text(bytes);
    assert forall|i: int| 0 <= i < digits.len() implies digit_value(#[trigger] digits[i]) is Some by {
        let byte = bytes[i / 2] as int;
        assert(0 <= byte / 16 < 16 && 0 <= byte % 16 < 16);
    }
    assert forall|i: int| 0 <= i < bytes.len() implies {
        &&& digit_value(digits[2 * i]) == Some(#[trigger] bytes[i] as int / 16)
        &&& digit_value(digits[2 * i + 1]) == Some(bytes[i] as int % 16)
    } by {
        let byte = bytes[i] as int;
        assert((2 * i) / 2 == i && (2 * i + 1) / 2 == i);
        assert((2 * i) % 2 == 0 && (2 * i + 1) % 2 == 1);
        assert(0 <= byte / 16 < 16 && 0 <= byte % 16 < 16);
    }
}

} // verus!

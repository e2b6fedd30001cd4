//! Upper-case hexadecimal text: two digits for each byte, high nibble first.

use vstd::prelude::*;

verus! {

/// `String::push` of std: the text afterwards is the text before with `ch`
/// appended.
pub assume_specification[ String::push ](text: &mut String, ch: char)
    ensures
        final(text)@ == old(text)@.push(ch),
;

/// The digit that stands for a value below sixteen.
pub open spec fn hex_digit(nibble: u8) -> char {
    if nibble < 10 {
        ('0' as u8 + nibble) as u8 as char
    } else {
        ('A' as u8 + nibble - 10) as u8 as char
    }
}

/// Whether `c` is one of `0`..`9` or `A`..`F`.
pub open spec fn is_upper_hex_digit(c: char) -> bool {
    ('0' <= c && c <= '9') || ('A' <= c && c <= 'F')
}

/// The value below sixteen that an upper-case hexadecimal digit stands for.
pub open spec fn hex_value(c: char) -> u8 {
    if c <= '9' {
        (c as u8 - '0' as u8) as u8
    } else {
        (c as u8 - 'A' as u8 + 10) as u8
    }
}

/// The hexadecimal text of `bytes`.
pub open spec fn hex_chars(bytes: Seq<u8>) -> Seq<char> {
    Seq::new(
        2 * bytes.len(),
        |i: int|
            if i % 2 == 0 {
                hex_digit(bytes[i / 2] / 16)
            } else {
                hex_digit(bytes[i / 2] % 16)
            },
    )
}

/// Whether `text` is the hexadecimal text of some bytes: an even number of
/// upper-case hexadecimal digits.
pub open spec fn is_hex_text(text: Seq<char>) -> bool {
    &&& text.len() % 2 == 0
    &&& forall|i: int| 0 <= i < text.len() ==> is_upper_hex_digit(#[trigger] text[i])
}

/// The bytes that a hexadecimal text stands for.
pub open spec fn hex_decode(text: Seq<char>) -> Seq<u8> {
    Seq::new(
        text.len() / 2,
        |i: int| (hex_value(text[2 * i]) * 16 + hex_value(text[2 * i + 1])) as u8,
    )
}

/// A digit decodes to the value it was made from.
pub proof fn lemma_hex_digit(nibble: u8)
    requires
        nibble < 16,
    ensures
        is_upper_hex_digit(hex_digit(nibble)),
        hex_value(hex_digit(nibble)) == nibble,
        hex_digit(nibble) != '\0',
        hex_digit(nibble) <= '\u{7f}',
{
}

/// Encoding doubles the length, yields upper-case hexadecimal digits only,
/// and decoding the text gives the bytes back.
pub proof fn lemma_hex_round_trip(bytes: Seq<u8>)
    ensures
        hex_chars(bytes).len() == 2 * bytes.len(),
        is_hex_text(hex_chars(bytes)),
        hex_decode(hex_chars(bytes)) == bytes,
{
    let text = hex_chars(bytes);
    assert forall|i: int| 0 <= i < text.len() implies is_upper_hex_digit(#[trigger] text[i]) by {
        lemma_hex_digit(bytes[i / 2] / 16);
        lemma_hex_digit(bytes[i / 2] % 16);
    }
    assert forall|k: int| 0 <= k < bytes.len() implies hex_decode(text)[k] == bytes[k] by {
        lemma_hex_digit(bytes[k] / 16);
        lemma_hex_digit(bytes[k] % 16);
        assert(text[2 * k] == hex_digit(bytes[k] / 16));
        assert(text[2 * k + 1] == hex_digit(bytes[k] % 16));
    }
    assert(hex_decode(text) =~= bytes);
}

/// The digit for a value below sixteen.
fn to_hex_digit(nibble: u8) -> (c: char)
    requires
        nibble < 16,
    ensures
        c == hex_digit(nibble),
{
    if nibble < 10 {
        ('0' as u8 + nibble) as char
    } else {
        ('A' as u8 + (nibble - 10)) as char
    }
}

/// Converts bytes to their upper-case hexadecimal text.
pub fn bytes_to_hex_string(input: &[u8]) -> (text: String)
    ensures
        text@ == hex_chars(input@),
        text@.len() == 2 * input@.len(),
        is_hex_text(text@),
{
    let mut text = String::new();
    let mut i: usize = 0;
    while i < input.len()
        invariant
            i <= input@.len(),
            text@ == hex_chars(input@.take(i as int)),
        decreases input@.len() - i,
    {
        let byte = input[i];
        text.push(to_hex_digit(byte / 16));
        text.push(to_hex_digit(byte % 16));
        i += 1;
        assert(text@ =~= hex_chars(input@.take(i as int)));
    }
    proof {
        assert(input@.take(i as int) =~= input@);
        lemma_hex_round_trip(input@);
    }
    text
}

/// The value of an upper-case hexadecimal digit given as a byte, if it is one.
fn from_hex_digit(byte: u8) -> (value: Option<u8>)
    ensures
        value is Some <==> is_upper_hex_digit(byte as char),
        value is Some ==> value.unwrap() == hex_value(byte as char),
{
    if '0' as u8 <= byte && byte <= '9' as u8 {
        Some(byte - '0' as u8)
    } else if 'A' as u8 <= byte && byte <= 'F' as u8 {
        Some(byte - 'A' as u8 + 10)
    } else {
        None
    }
}

/// Converts upper-case hexadecimal text back to bytes. Text that is not an
/// even number of the digits `0`..`9` and `A`..`F` is refused.
pub fn hex_string_to_bytes(input: &str) -> (bytes: Option<Vec<u8>>)
    ensures
        bytes is Some <==> is_hex_text(input@),
        bytes is Some ==> bytes.unwrap()@ == hex_decode(input@),
{
    if !input.is_ascii() {
        return None;
    }
    let raw = input.as_bytes();
    proof {
        vstd::utf8::is_ascii_chars_encode_utf8(input@);
    }
    if raw.len() % 2 != 0 {
        return None;
    }
    let mut bytes: Vec<u8> = Vec::new();
    let mut i: usize = 0;
    while i < raw.len()
        invariant
            raw@.len() == input@.len(),
            raw@.len() % 2 == 0,
            i % 2 == 0,
            i <= raw@.len(),
            bytes@.len() == i / 2,
            forall|j: int| 0 <= j < raw@.len() ==> input@[j] == (#[trigger] raw@[j]) as char,
            forall|j: int| 0 <= j < i ==> is_upper_hex_digit(#[trigger] input@[j]),
            forall|k: int| 0 <= k < i / 2 ==> #[trigger] bytes@[k] == hex_decode(input@)[k],
        decreases raw@.len() - i,
    {
        let high = from_hex_digit(raw[i]);
        let low = from_hex_digit(raw[i + 1]);
        if high.is_none() || low.is_none() {
            return None;
        }
        bytes.push(high.unwrap() * 16 + low.unwrap());
        i += 2;
    }
    proof {
        assert(bytes@ =~= hex_decode(input@));
    }
    Some(bytes)
}

} // verus!

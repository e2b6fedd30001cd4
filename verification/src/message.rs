//! The binary message object that carries a machine identifier.
//!
//! The object opens with a zero byte and its type name, holds one field for
//! each of the three hash values, and closes with two end markers. A field
//! is the tag of a byte string, the field's name and the value as
//! hexadecimal text; every name and text ends with a zero byte.

use crate::buffer::buffer_bytes;
use crate::buffer::buffer_into_vec;
use crate::buffer::buffer_put;
use crate::buffer::buffer_put_i8;
use crate::buffer::buffer_with_capacity;
use crate::digest::Sha1HashValue;
use crate::error::MachineIDError;
use crate::hex::bytes_to_hex_string;
use crate::hex::hex_chars;
use crate::hex::lemma_hex_digit;
use crate::text::contains_zero_byte;
use crate::text::has_zero_byte;
use crate::text::lemma_ascii_bytes;
use vstd::prelude::*;
use vstd::utf8::encode_utf8;
use vstd::utf8::is_ascii_chars;

verus! {

/// The length of every message object, in bytes.
pub const MESSAGE_LENGTH: usize = 155;

/// The bytes of `text` followed by the zero byte that ends it.
pub open spec fn c_string_bytes(text: Seq<char>) -> Seq<u8> {
    encode_utf8(text).push(0u8)
}

/// One field of the object: the tag of a byte string, the name, and the
/// value as hexadecimal text.
pub open spec fn field_bytes(name: Seq<char>, value: Seq<u8>) -> Seq<u8> {
    seq![1u8] + c_string_bytes(name) + c_string_bytes(hex_chars(value))
}

/// The message object for the three hash values.
pub open spec fn message_bytes(value_bb3: Seq<u8>, value_ff2: Seq<u8>, value_3b3: Seq<u8>) -> Seq<
    u8,
> {
    seq![0u8] + c_string_bytes("MessageObject"@) + field_bytes("BB3"@, value_bb3) + field_bytes(
        "FF2"@,
        value_ff2,
    ) + field_bytes("3B3"@, value_3b3) + seq![8u8, 8u8]
}

/// Hexadecimal text is ASCII and holds no zero byte, so that it is encoded
/// with one byte for each digit.
pub proof fn lemma_hex_text_bytes(value: Seq<u8>)
    ensures
        is_ascii_chars(hex_chars(value)),
        !has_zero_byte(hex_chars(value)),
        encode_utf8(hex_chars(value)).len() == 2 * value.len(),
{
    let text = hex_chars(value);
    assert forall|i: int| 0 <= i < text.len() implies '\0' < #[trigger] text[i] && text[i]
        <= '\u{7f}' by {
        lemma_hex_digit(value[i / 2] / 16);
        lemma_hex_digit(value[i / 2] % 16);
    }
    lemma_ascii_bytes(text);
}

/// The names of the object and of its fields are ASCII texts without a zero
/// byte, of thirteen and of three bytes.
pub proof fn lemma_name_bytes()
    ensures
        !has_zero_byte("MessageObject"@),
        !has_zero_byte("BB3"@),
        !has_zero_byte("FF2"@),
        !has_zero_byte("3B3"@),
        c_string_bytes("MessageObject"@) == seq![
            0x4Du8,
            0x65u8,
            0x73u8,
            0x73u8,
            0x61u8,
            0x67u8,
            0x65u8,
            0x4Fu8,
            0x62u8,
            0x6Au8,
            0x65u8,
            0x63u8,
            0x74u8,
            0x00u8,
        ],
        c_string_bytes("BB3"@) == seq![0x42u8, 0x42u8, 0x33u8, 0x00u8],
        c_string_bytes("FF2"@) == seq![0x46u8, 0x46u8, 0x32u8, 0x00u8],
        c_string_bytes("3B3"@) == seq![0x33u8, 0x42u8, 0x33u8, 0x00u8],
{
    reveal_strlit("MessageObject");
    reveal_strlit("BB3");
    reveal_strlit("FF2");
    reveal_strlit("3B3");
    lemma_ascii_bytes("MessageObject"@);
    lemma_ascii_bytes("BB3"@);
    lemma_ascii_bytes("FF2"@);
    lemma_ascii_bytes("3B3"@);
}

/// Gets a null-terminated (C string) byte vec from the given string: its
/// bytes and a closing zero byte. A string that holds a zero byte itself is
/// refused.
pub fn get_c_string(input: &str) -> (result: Result<Vec<u8>, MachineIDError>)
    ensures
        match result {
            Ok(bytes) => !has_zero_byte(input@) && bytes@ == c_string_bytes(input@),
            Err(error) => has_zero_byte(input@) && error == MachineIDError::InvalidInput,
        },
{
    if contains_zero_byte(input) {
        return Err(MachineIDError::InvalidInput);
    }
    let mut bytes = input.as_bytes_vec();
    bytes.push(0);
    Ok(bytes)
}

/// Where each part of the message object lies: 155 bytes in all, the
/// opening zero byte, the type name in bytes 1 to 14, the three fields of 46
/// bytes each from bytes 15, 61 and 107, and the two end markers.
pub proof fn lemma_message_layout(value_bb3: Seq<u8>, value_ff2: Seq<u8>, value_3b3: Seq<u8>)
    requires
        value_bb3.len() == 20,
        value_ff2.len() == 20,
        value_3b3.len() == 20,
    ensures
        ({
            let message = message_bytes(value_bb3, value_ff2, value_3b3);
            &&& message.len() == MESSAGE_LENGTH
            &&& message[0] == 0
            &&& message.subrange(1, 15) == c_string_bytes("MessageObject"@)
            &&& message[15] == 1
            &&& message.subrange(16, 20) == c_string_bytes("BB3"@)
            &&& message.subrange(20, 61) == c_string_bytes(hex_chars(value_bb3))
            &&& message[61] == 1
            &&& message.subrange(62, 66) == c_string_bytes("FF2"@)
            &&& message.subrange(66, 107) == c_string_bytes(hex_chars(value_ff2))
            &&& message[107] == 1
            &&& message.subrange(108, 112) == c_string_bytes("3B3"@)
            &&& message.subrange(112, 153) == c_string_bytes(hex_chars(value_3b3))
            &&& message[153] == 8
            &&& message[154] == 8
        }),
{
    lemma_name_bytes();
    lemma_hex_text_bytes(value_bb3);
    lemma_hex_text_bytes(value_ff2);
    lemma_hex_text_bytes(value_3b3);
    let message = message_bytes(value_bb3, value_ff2, value_3b3);
    assert(message.subrange(1, 15) =~= c_string_bytes("MessageObject"@));
    assert(message.subrange(16, 20) =~= c_string_bytes("BB3"@));
    assert(message.subrange(20, 61) =~= c_string_bytes(hex_chars(value_bb3)));
    assert(message.subrange(62, 66) =~= c_string_bytes("FF2"@));
    assert(message.subrange(66, 107) =~= c_string_bytes(hex_chars(value_ff2)));
    assert(message.subrange(108, 112) =~= c_string_bytes("3B3"@));
    assert(message.subrange(112, 153) =~= c_string_bytes(hex_chars(value_3b3)));
}

/// The C string of a text that holds no zero byte.
fn c_string(text: &str) -> (bytes: Vec<u8>)
    requires
        !has_zero_byte(text@),
    ensures
        bytes@ == c_string_bytes(text@),
{
    get_c_string(text).unwrap()
}

/// The C string of the hexadecimal text of a hash value.
fn hex_c_string(value: &Sha1HashValue) -> (bytes: Vec<u8>)
    ensures
        bytes@ == c_string_bytes(hex_chars(value@)),
        bytes@.len() == 41,
{
    let text = bytes_to_hex_string(value.as_slice());
    proof {
        lemma_hex_text_bytes(value@);
    }
    c_string(text.as_str())
}

/// Creates a machine id from the given SHA-1 hash values.
pub fn create_machine_id_from_values(
    value_bb3: &Sha1HashValue,
    value_ff2: &Sha1HashValue,
    value_3b3: &Sha1HashValue,
) -> (message: Vec<u8>)
    ensures
        message@ == message_bytes(value_bb3@, value_ff2@, value_3b3@),
        message@.len() == MESSAGE_LENGTH,
{
    proof {
        lemma_name_bytes();
        lemma_message_layout(value_bb3@, value_ff2@, value_3b3@);
    }
    let mut buffer = buffer_with_capacity(MESSAGE_LENGTH);
    let text_bb3 = hex_c_string(value_bb3);
    let text_ff2 = hex_c_string(value_ff2);
    let text_3b3 = hex_c_string(value_3b3);

    buffer_put_i8(&mut buffer, 0);
    buffer_put(&mut buffer, c_string("MessageObject").as_slice());

    buffer_put_i8(&mut buffer, 1);
    buffer_put(&mut buffer, c_string("BB3").as_slice());
    buffer_put(&mut buffer, text_bb3.as_slice());

    buffer_put_i8(&mut buffer, 1);
    buffer_put(&mut buffer, c_string("FF2").as_slice());
    buffer_put(&mut buffer, text_ff2.as_slice());

    buffer_put_i8(&mut buffer, 1);
    buffer_put(&mut buffer, c_string("3B3").as_slice());
    buffer_put(&mut buffer, text_3b3.as_slice());

    buffer_put_i8(&mut buffer, 8);
    buffer_put_i8(&mut buffer, 8);
    assert(buffer_bytes(buffer) =~= message_bytes(value_bb3@, value_ff2@, value_3b3@));
    buffer_into_vec(buffer)
}

} // verus!

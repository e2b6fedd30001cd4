//! Texts as bytes: the UTF-8 encoding of a text, and the zero byte that the
//! message object cannot carry inside one.

use vstd::prelude::*;
use vstd::utf8::encode_utf8;
use vstd::utf8::is_ascii_chars;

verus! {

/// Whether the UTF-8 encoding of `text` holds a zero byte.
pub open spec fn has_zero_byte(text: Seq<char>) -> bool {
    encode_utf8(text).contains(0u8)
}

/// The encoding of two texts put together is their encodings put together.
pub proof fn lemma_encode_utf8_concat(a: Seq<char>, b: Seq<char>)
    ensures
        encode_utf8(a + b) == encode_utf8(a) + encode_utf8(b),
    decreases a.len(),
{
    if a.len() == 0 {
        assert(a + b =~= b);
        assert(encode_utf8(a) + encode_utf8(b) =~= encode_utf8(b));
    } else {
        assert((a + b).drop_first() =~= a.drop_first() + b);
        lemma_encode_utf8_concat(a.drop_first(), b);
        assert(encode_utf8(a + b) =~= encode_utf8(a) + encode_utf8(b));
    }
}

/// A text of ASCII characters is encoded with one byte for each character,
/// and holds a zero byte only where it holds the character of code zero.
pub proof fn lemma_ascii_bytes(text: Seq<char>)
    requires
        is_ascii_chars(text),
    ensures
        encode_utf8(text).len() == text.len(),
        forall|i: int| 0 <= i < text.len() ==> #[trigger] encode_utf8(text)[i] == text[i] as u8,
        has_zero_byte(text) <==> text.contains('\0'),
{
    vstd::utf8::is_ascii_chars_encode_utf8(text);
    let bytes = encode_utf8(text);
    if text.contains('\0') {
        let i = choose|i: int| 0 <= i < text.len() && text[i] == '\0';
        assert(bytes[i] == 0u8);
    }
    if bytes.contains(0u8) {
        let i = choose|i: int| 0 <= i < bytes.len() && bytes[i] == 0u8;
        assert(text[i] as u8 == 0u8);
        assert(text[i] == '\0');
    }
}

/// Tells whether the bytes of `value` hold a zero byte.
pub fn contains_zero_byte(value: &str) -> (found: bool)
    ensures
        found == has_zero_byte(value@),
{
    let bytes = value.as_bytes();
    let mut i: usize = 0;
    while i < bytes.len()
        invariant
            bytes@ == encode_utf8(value@),
            i <= bytes@.len(),
            forall|j: int| 0 <= j < i ==> bytes@[j] != 0u8,
        decreases bytes@.len() - i,
    {
        if bytes[i] == 0 {
            assert(bytes@[i as int] == 0u8);
            return true;
        }
        i += 1;
    }
    false
}

} // verus!

//! The machine identifier and the ways to make one.

use crate::digest::account_name_text;
use crate::digest::get_account_name_hash_value;
use crate::digest::get_custom_hash_value;
use crate::digest::get_random_hash_value;
use crate::digest::lemma_account_name_text_len;
use crate::digest::sha1_digest;
use crate::digest::SHA1_INPUT_LIMIT;
use crate::digest::Sha1HashValue;
use crate::error::MachineIDError;
use crate::hex::bytes_to_hex_string;
use crate::hex::hex_chars;
use crate::hex::is_hex_text;
use crate::hex::lemma_hex_round_trip;
use crate::message::c_string_bytes;
use crate::message::create_machine_id_from_values;
use crate::message::lemma_message_layout;
use crate::message::message_bytes;
use crate::message::MESSAGE_LENGTH;
use crate::text::contains_zero_byte;
use crate::text::has_zero_byte;
use crate::text::lemma_ascii_bytes;
use vstd::prelude::*;
use vstd::utf8::encode_utf8;

verus! {

/// A Steam machine ID.
#[derive(Debug, Copy, Clone, Eq)]
pub struct MachineID {
    /// The BB3 SHA1 hash value. This value is not hexadecimal encoded.
    pub value_bb3: Sha1HashValue,
    /// The FF2 SHA1 hash value. This value is not hexadecimal encoded.
    pub value_ff2: Sha1HashValue,
    /// The 3B3 SHA1 hash value. This value is not hexadecimal encoded.
    pub value_3b3: Sha1HashValue,
}

/// Options for creating a Steam machine ID.
#[derive(Debug, Copy, Clone, PartialEq, Eq)]
pub enum MachineIDType<'a> {
    /// A random machine ID, from three texts that the caller drew
    /// independently, for BB3, FF2 and 3B3 in this order.
    Random(&'a str, &'a str, &'a str),
    /// A machine ID created from the given account name.
    AccountName(&'a str),
    /// A machine ID created using a custom format: one text each for BB3,
    /// FF2 and 3B3.
    CustomFormat(&'a str, &'a str, &'a str),
}

/// Tells whether two hash values hold the same bytes.
fn same_hash_value(a: &Sha1HashValue, b: &Sha1HashValue) -> (same: bool)
    ensures
        same == (a == b),
{
    let mut i: usize = 0;
    while i < 20
        invariant
            i <= 20,
            forall|j: int| 0 <= j < i ==> a@[j] == b@[j],
        decreases 20 - i,
    {
        if a[i] != b[i] {
            return false;
        }
        i += 1;
    }
    assert(a =~= b);
    true
}

impl PartialEq for MachineID {
    /// Two machine IDs are equal when their three values are, byte for byte.
    fn eq(&self, other: &MachineID) -> (equal: bool) {
        same_hash_value(&self.value_bb3, &other.value_bb3) && same_hash_value(
            &self.value_ff2,
            &other.value_ff2,
        ) && same_hash_value(&self.value_3b3, &other.value_3b3)
    }
}

impl vstd::std_specs::cmp::PartialEqSpecImpl for MachineID {
    open spec fn obeys_eq_spec() -> bool {
        true
    }

    open spec fn eq_spec(&self, other: &MachineID) -> bool {
        *self == *other
    }
}

impl<'a> MachineIDType<'a> {
    /// The texts whose digests become the values BB3, FF2 and 3B3.
    pub open spec fn texts(self) -> (Seq<char>, Seq<char>, Seq<char>) {
        match self {
            MachineIDType::Random(bb3, ff2, b3b) => (bb3@, ff2@, b3b@),
            MachineIDType::AccountName(account_name) => (
                account_name_text("BB3"@, account_name@),
                account_name_text("FF2"@, account_name@),
                account_name_text("3B3"@, account_name@),
            ),
            MachineIDType::CustomFormat(bb3, ff2, b3b) => (bb3@, ff2@, b3b@),
        }
    }

    /// Whether the texts that the caller wrote are free of zero bytes. Drawn
    /// texts are not examined.
    pub open spec fn is_valid(self) -> bool {
        match self {
            MachineIDType::Random(_, _, _) => true,
            MachineIDType::AccountName(account_name) => !has_zero_byte(account_name@),
            MachineIDType::CustomFormat(bb3, ff2, b3b) => {
                &&& !has_zero_byte(bb3@)
                &&& !has_zero_byte(ff2@)
                &&& !has_zero_byte(b3b@)
            },
        }
    }

    /// Whether `result` is what this option yields: the refusal where a text
    /// that the caller wrote holds a zero byte, else the machine ID whose
    /// values are the digests of the three texts.
    pub open spec fn yields(self, result: Result<MachineID, MachineIDError>) -> bool {
        match result {
            Ok(machine_id) => self.is_valid() && machine_id.is_digest_of(self.texts()),
            Err(error) => !self.is_valid() && error == MachineIDError::InvalidInput,
        }
    }

    /// Whether each text to be hashed is short enough for a digest.
    pub open spec fn within_limit(self) -> bool {
        &&& encode_utf8(self.texts().0).len() < SHA1_INPUT_LIMIT
        &&& encode_utf8(self.texts().1).len() < SHA1_INPUT_LIMIT
        &&& encode_utf8(self.texts().2).len() < SHA1_INPUT_LIMIT
    }
}

impl MachineID {
    /// Whether the three values are the digests of the three texts, BB3 first.
    pub open spec fn is_digest_of(self, texts: (Seq<char>, Seq<char>, Seq<char>)) -> bool {
        &&& self.value_bb3@ == sha1_digest(encode_utf8(texts.0))
        &&& self.value_ff2@ == sha1_digest(encode_utf8(texts.1))
        &&& self.value_3b3@ == sha1_digest(encode_utf8(texts.2))
    }

    /// Creates a new machine ID. It is refused if and only if a text that
    /// the caller wrote holds a zero byte.
    pub fn new(machine_id_type: MachineIDType<'_>) -> (result: Result<MachineID, MachineIDError>)
        requires
            machine_id_type.within_limit(),
        ensures
            machine_id_type.yields(result),
    {
        match machine_id_type {
            MachineIDType::Random(bb3, ff2, b3b) => {
                Ok(
                    MachineID {
                        value_bb3: get_random_hash_value(bb3),
                        value_ff2: get_random_hash_value(ff2),
                        value_3b3: get_random_hash_value(b3b),
                    },
                )
            },
            MachineIDType::AccountName(account_name) => {
                if contains_zero_byte(account_name) {
                    return Err(MachineIDError::InvalidInput);
                }
                Ok(
                    MachineID {
                        value_bb3: get_account_name_hash_value("BB3", account_name),
                        value_ff2: get_account_name_hash_value("FF2", account_name),
                        value_3b3: get_account_name_hash_value("3B3", account_name),
                    },
                )
            },
            MachineIDType::CustomFormat(value_bb3, value_ff2, value_3b3) => {
                if contains_zero_byte(value_bb3) || contains_zero_byte(value_ff2)
                    || contains_zero_byte(value_3b3) {
                    return Err(MachineIDError::InvalidInput);
                }
                Ok(
                    MachineID {
                        value_bb3: get_custom_hash_value(value_bb3),
                        value_ff2: get_custom_hash_value(value_ff2),
                        value_3b3: get_custom_hash_value(value_3b3),
                    },
                )
            },
        }
    }

    /// Creates a random machine ID from three texts that the caller drew
    /// independently: each value is the digest of its text.
    pub fn random(entropy_bb3: &str, entropy_ff2: &str, entropy_3b3: &str) -> (machine_id: Self)
        requires
            encode_utf8(entropy_bb3@).len() < SHA1_INPUT_LIMIT,
            encode_utf8(entropy_ff2@).len() < SHA1_INPUT_LIMIT,
            encode_utf8(entropy_3b3@).len() < SHA1_INPUT_LIMIT,
        ensures
            machine_id.is_digest_of((entropy_bb3@, entropy_ff2@, entropy_3b3@)),
    {
        Self::new(MachineIDType::Random(entropy_bb3, entropy_ff2, entropy_3b3)).unwrap()
    }

    /// Creates a machine ID from the given account name. A name that holds a
    /// zero byte is refused.
    pub fn from_account_name(account_name: &str) -> (result: Result<Self, MachineIDError>)
        requires
            encode_utf8(account_name@).len() + 19 < SHA1_INPUT_LIMIT,
        ensures
            MachineIDType::AccountName(account_name).yields(result),
    {
        proof {
            lemma_field_name_len();
            lemma_account_name_text_len("BB3"@, account_name@);
            lemma_account_name_text_len("FF2"@, account_name@);
            lemma_account_name_text_len("3B3"@, account_name@);
        }
        Self::new(MachineIDType::AccountName(account_name))
    }

    /// Creates a machine ID using a custom format for specific use-cases:
    /// each value is the digest of the text given for it. A text that holds a
    /// zero byte is refused.
    pub fn custom_format(value_bb3: &str, value_ff2: &str, value_3b3: &str) -> (result: Result<
        Self,
        MachineIDError,
    >)
        requires
            encode_utf8(value_bb3@).len() < SHA1_INPUT_LIMIT,
            encode_utf8(value_ff2@).len() < SHA1_INPUT_LIMIT,
            encode_utf8(value_3b3@).len() < SHA1_INPUT_LIMIT,
        ensures
            MachineIDType::CustomFormat(value_bb3, value_ff2, value_3b3).yields(result),
    {
        Self::new(MachineIDType::CustomFormat(value_bb3, value_ff2, value_3b3))
    }

    /// The message object of this machine ID.
    pub open spec fn message(self) -> Seq<u8> {
        message_bytes(self.value_bb3@, self.value_ff2@, self.value_3b3@)
    }

    /// Creates a message object from the machine ID.
    pub fn to_message(&self) -> (message: Vec<u8>)
        ensures
            message@ == self.message(),
            message@.len() == MESSAGE_LENGTH,
            message@[0] == 0,
            message@.subrange(1, 15) == c_string_bytes("MessageObject"@),
            message@[15] == 1,
            message@.subrange(16, 20) == c_string_bytes("BB3"@),
            message@[153] == 8,
            message@[154] == 8,
    {
        proof {
            lemma_message_layout(self.value_bb3@, self.value_ff2@, self.value_3b3@);
        }
        create_machine_id_from_values(&self.value_bb3, &self.value_ff2, &self.value_3b3)
    }

    /// The text that shows this machine ID.
    pub open spec fn display(self) -> Seq<char> {
        display_text(self.value_bb3@, self.value_ff2@, self.value_3b3@)
    }

    /// Shows the machine ID as text: each label, a full stop and the value
    /// in hexadecimal, the three joined by colons.
    pub fn to_display_string(&self) -> (text: String)
        ensures
            text@ == self.display(),
            is_display_text(text@),
    {
        proof {
            lemma_display_text_matches_pattern(self.value_bb3@, self.value_ff2@, self.value_3b3@);
        }
        let mut text = String::from_str("BB3.");
        text.append(bytes_to_hex_string(self.value_bb3.as_slice()).as_str());
        text.append(":FF2.");
        text.append(bytes_to_hex_string(self.value_ff2.as_slice()).as_str());
        text.append(":3B3.");
        text.append(bytes_to_hex_string(self.value_3b3.as_slice()).as_str());
        text
    }
}

impl From<MachineID> for Vec<u8> {
    /// The message object of the machine ID.
    fn from(machine_id: MachineID) -> (message: Vec<u8>)
        ensures
            message@ == machine_id.message(),
    {
        machine_id.to_message()
    }
}

/// The conversion promises the bytes of the vector, stated on `from`
/// itself, and not which vector it is: `from_spec` stands for some vector
/// with these bytes.
impl vstd::std_specs::convert::FromSpecImpl<MachineID> for Vec<u8> {
    open spec fn obeys_from_spec() -> bool {
        false
    }

    open spec fn from_spec(machine_id: MachineID) -> Vec<u8> {
        choose|message: Vec<u8>| message@ == machine_id.message()
    }
}

impl From<&MachineID> for Vec<u8> {
    /// The message object of the machine ID.
    fn from(machine_id: &MachineID) -> (message: Vec<u8>)
        ensures
            message@ == machine_id.message(),
    {
        machine_id.to_message()
    }
}

/// As for the conversion from a machine ID by value.
impl vstd::std_specs::convert::FromSpecImpl<&MachineID> for Vec<u8> {
    open spec fn obeys_from_spec() -> bool {
        false
    }

    open spec fn from_spec(machine_id: &MachineID) -> Vec<u8> {
        choose|message: Vec<u8>| message@ == machine_id.message()
    }
}

/// The display text of three hash values.
pub open spec fn display_text(value_bb3: Seq<u8>, value_ff2: Seq<u8>, value_3b3: Seq<u8>) -> Seq<
    char,
> {
    "BB3."@ + hex_chars(value_bb3) + ":FF2."@ + hex_chars(value_ff2) + ":3B3."@ + hex_chars(
        value_3b3,
    )
}

/// Whether `text` has the shape `BB3.<hex>:FF2.<hex>:3B3.<hex>`, each
/// `<hex>` being forty upper-case hexadecimal digits.
pub open spec fn is_display_text(text: Seq<char>) -> bool {
    &&& text.len() == 134
    &&& text.subrange(0, 4) == "BB3."@
    &&& is_hex_text(text.subrange(4, 44))
    &&& text.subrange(44, 49) == ":FF2."@
    &&& is_hex_text(text.subrange(49, 89))
    &&& text.subrange(89, 94) == ":3B3."@
    &&& is_hex_text(text.subrange(94, 134))
}

/// The three field names are encoded with three bytes each.
pub proof fn lemma_field_name_len()
    ensures
        encode_utf8("BB3"@).len() == 3,
        encode_utf8("FF2"@).len() == 3,
        encode_utf8("3B3"@).len() == 3,
{
    reveal_strlit("BB3");
    reveal_strlit("FF2");
    reveal_strlit("3B3");
    lemma_ascii_bytes("BB3"@);
    lemma_ascii_bytes("FF2"@);
    lemma_ascii_bytes("3B3"@);
}

/// The display text of three hash values of twenty bytes has the shape
/// `BB3.<hex>:FF2.<hex>:3B3.<hex>`, and each `<hex>` is the hexadecimal text
/// of its value.
pub proof fn lemma_display_text_matches_pattern(
    value_bb3: Seq<u8>,
    value_ff2: Seq<u8>,
    value_3b3: Seq<u8>,
)
    requires
        value_bb3.len() == 20,
        value_ff2.len() == 20,
        value_3b3.len() == 20,
    ensures
        is_display_text(display_text(value_bb3, value_ff2, value_3b3)),
        display_text(value_bb3, value_ff2, value_3b3).subrange(4, 44) == hex_chars(value_bb3),
        display_text(value_bb3, value_ff2, value_3b3).subrange(49, 89) == hex_chars(value_ff2),
        display_text(value_bb3, value_ff2, value_3b3).subrange(94, 134) == hex_chars(value_3b3),
{
    reveal_strlit("BB3.");
    reveal_strlit(":FF2.");
    reveal_strlit(":3B3.");
    lemma_hex_round_trip(value_bb3);
    lemma_hex_round_trip(value_ff2);
    lemma_hex_round_trip(value_3b3);
    let text = display_text(value_bb3, value_ff2, value_3b3);
    assert(text.subrange(0, 4) =~= "BB3."@);
    assert(text.subrange(4, 44) =~= hex_chars(value_bb3));
    assert(text.subrange(44, 49) =~= ":FF2."@);
    assert(text.subrange(49, 89) =~= hex_chars(value_ff2));
    assert(text.subrange(89, 94) =~= ":3B3."@);
    assert(text.subrange(94, 134) =~= hex_chars(value_3b3));
}

/// An option yields one result only: whatever it yields twice is the same
/// machine ID with the same message object, or the same refusal.
pub proof fn lemma_derivation_is_deterministic(
    machine_id_type: MachineIDType<'_>,
    first: Result<MachineID, MachineIDError>,
    second: Result<MachineID, MachineIDError>,
)
    requires
        machine_id_type.yields(first),
        machine_id_type.yields(second),
    ensures
        first == second,
        first is Ok ==> first.unwrap().message() == second.unwrap().message(),
{
    if first is Ok {
        let a = first.unwrap();
        let b = second.unwrap();
        assert(a.value_bb3 =~= b.value_bb3);
        assert(a.value_ff2 =~= b.value_ff2);
        assert(a.value_3b3 =~= b.value_3b3);
    }
}

} // verus!

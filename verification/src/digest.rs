//! The three ways to derive a hash value: from drawn entropy, from an
//! account name, and from a text of the caller's choice. Each is the SHA-1
//! digest of the bytes of a text.

use crate::text::lemma_ascii_bytes;
use crate::text::lemma_encode_utf8_concat;
use sha1_smol::Sha1;
use vstd::prelude::*;
use vstd::utf8::encode_utf8;

verus! {

/// A SHA-1 hash value: the twenty bytes of the digest, not hexadecimal.
pub type Sha1HashValue = [u8; 20];

/// The number of input bytes from which on no digest can be had: the count
/// of input bits then no longer fits the 64 bits that SHA-1 gives it.
pub const SHA1_INPUT_LIMIT: u64 = 0x2000_0000_0000_0000;

/// The SHA-1 digest of `input`, as `sha1_smol` computes it.
pub uninterp spec fn sha1_digest(input: Seq<u8>) -> Seq<u8>;

/// The text that is hashed for the field `key` of the account `account_name`.
pub open spec fn account_name_text(key: Seq<char>, account_name: Seq<char>) -> Seq<char> {
    "SteamUser Hash "@ + key + " "@ + account_name
}

/// The length of the bytes that are hashed for an account name: sixteen
/// bytes for the fixed words and the space, then the key and the name.
pub proof fn lemma_account_name_text_len(key: Seq<char>, account_name: Seq<char>)
    ensures
        encode_utf8(account_name_text(key, account_name)).len() == 16 + encode_utf8(key).len()
            + encode_utf8(account_name).len(),
{
    reveal_strlit("SteamUser Hash ");
    reveal_strlit(" ");
    lemma_ascii_bytes("SteamUser Hash "@);
    lemma_ascii_bytes(" "@);
    lemma_encode_utf8_concat("SteamUser Hash "@, key);
    lemma_encode_utf8_concat("SteamUser Hash "@ + key, " "@);
    lemma_encode_utf8_concat("SteamUser Hash "@ + key + " "@, account_name);
}

/// Calls `Sha1::from(input).digest().bytes()` of `sha1_smol`. The result is a
/// function of the input bytes alone and is known here only by its name,
/// `sha1_digest`. Inputs of 2^61 bytes and more are left out: the crate
/// multiplies the byte count by eight in 64 bits.
#[verifier::external_body]
fn create_sha1(input: &[u8]) -> (digest: Sha1HashValue)
    requires
        input@.len() < SHA1_INPUT_LIMIT,
    ensures
        digest@ == sha1_digest(input@),
{
    Sha1::from(input).digest().bytes()
}

/// Gets the hash value of a drawn text. The caller draws `entropy` afresh
/// for each call; the value is its digest, whatever was drawn.
pub fn get_random_hash_value(entropy: &str) -> (value: Sha1HashValue)
    requires
        encode_utf8(entropy@).len() < SHA1_INPUT_LIMIT,
    ensures
        value@ == sha1_digest(encode_utf8(entropy@)),
{
    create_sha1(entropy.as_bytes())
}

/// Gets the hash value for the given `key` and `account_name`: the digest of
/// the text `SteamUser Hash `, the key, a space and the account name.
pub fn get_account_name_hash_value(key: &str, account_name: &str) -> (value: Sha1HashValue)
    requires
        encode_utf8(account_name_text(key@, account_name@)).len() < SHA1_INPUT_LIMIT,
    ensures
        value@ == sha1_digest(encode_utf8(account_name_text(key@, account_name@))),
{
    let mut text = String::from_str("SteamUser Hash ");
    text.append(key);
    text.append(" ");
    text.append(account_name);
    create_sha1(text.as_str().as_bytes())
}

/// Gets the hash value of the given text: the digest of its bytes.
pub fn get_custom_hash_value(value: &str) -> (hash: Sha1HashValue)
    requires
        encode_utf8(value@).len() < SHA1_INPUT_LIMIT,
    ensures
        hash@ == sha1_digest(encode_utf8(value@)),
{
    create_sha1(value.as_bytes())
}

} // verus!

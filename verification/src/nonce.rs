//! The nonce that answers the provider's custom challenge: a timestamp and
//! a keyed hash of the user name and that timestamp under the shared secret.

use vstd::prelude::*;
use vstd::utf8::*;
use hmac::Mac;
use crate::clock::unix_now;
use crate::text::{decimal_string, decimal_text, join3, lemma_decimal_text_digits};

verus! {

/// The HMAC-SHA256 tag of `message` under `key`.
pub uninterp spec fn hmac_sha256_tag(key: Seq<u8>, message: Seq<u8>) -> Seq<u8>;

/// Calls `hmac::Hmac::<sha2::Sha256>`: `new_from_slice`, `update`,
/// `finalize`. The tag is a function of key and message, and has the 32
/// bytes of a SHA-256 output. `new_from_slice` accepts a key of any length.
#[verifier::external_body]
pub(crate) fn hmac_sha256(key: &[u8], message: &[u8]) -> (tag: Vec<u8>)
    ensures
        tag@ == hmac_sha256_tag(key@, message@),
        tag@.len() == 32,
{
    let mut mac = hmac::Hmac::<sha2::Sha256>::new_from_slice(key).expect("any key length");
    mac.update(message);
    mac.finalize().into_bytes().to_vec()
}

/// The sixteen lower-case hexadecimal digits, in order.
pub open spec fn hex_digits() -> Seq<char> {
    seq!['0', '1', '2', '3', '4', '5', '6', '7', '8', '9', 'a', 'b', 'c', 'd', 'e', 'f']
}

/// Two lower-case hexadecimal digits per byte, the high half first.
pub open spec fn hex_text(bytes: Seq<u8>) -> Seq<char>
    decreases bytes.len(),
{
    if bytes.len() == 0 {
        Seq::empty()
    } else {
        hex_text(bytes.drop_last()).push(hex_digits()[bytes.last() as int / 16]).push(
            hex_digits()[bytes.last() as int % 16],
        )
    }
}

/// Calls `hex::encode`, which writes each byte as two digits out of
/// `0123456789abcdef`, the high four bits first.
#[verifier::external_body]
pub(crate) fn hex_encode(bytes: &[u8]) -> (text: String)
    ensures
        text@ == hex_text(bytes@),
{
    hex::encode(bytes)
}

/// The text that is signed for `username` at second `timestamp`.
pub open spec fn nonce_message(username: Seq<char>, timestamp: nat) -> Seq<char> {
    username + seq![':'] + decimal_text(timestamp)
}

/// The nonce for `username` at second `timestamp` under `secret`: the
/// timestamp, a colon, and the hexadecimal HMAC-SHA256 tag of
/// `username:timestamp`.
pub open spec fn nonce_text(username: Seq<char>, secret: Seq<char>, timestamp: nat) -> Seq<char> {
    decimal_text(timestamp) + seq![':'] + hex_text(
        hmac_sha256_tag(encode_utf8(secret), encode_utf8(nonce_message(username, timestamp))),
    )
}

/// Whether `nonce` is the nonce for `username` at second `timestamp` under
/// `secret`: the text above, in which the 64 hexadecimal characters of the
/// 32-byte tag follow the colon.
pub open spec fn is_nonce(
    nonce: Seq<char>,
    username: Seq<char>,
    secret: Seq<char>,
    timestamp: nat,
) -> bool {
    &&& nonce == nonce_text(username, secret, timestamp)
    &&& nonce.len() == decimal_text(timestamp).len() + 65
}

/// Computes the nonce for `username` at the given second.
pub fn nonce_at(username: &str, nonce_secret: &str, timestamp: u64) -> (nonce: String)
    ensures
        is_nonce(nonce@, username@, nonce_secret@, timestamp as nat),
{
    proof {
        reveal_strlit(":");
        assert(":"@ =~= seq![':']);
    }
    let ts = decimal_string(timestamp);
    let message = join3(username, ":", ts.as_str());
    let tag = hmac_sha256(nonce_secret.as_bytes(), message.as_str().as_bytes());
    let hex = hex_encode(tag.as_slice());
    proof {
        lemma_hex_text_len(tag@);
    }
    join3(ts.as_str(), ":", hex.as_str())
}

/// Computes the nonce for `username` at the current second.
pub fn generate_nonce(username: &str, nonce_secret: &str) -> (nonce: String)
    ensures
        exists|timestamp: u64| #[trigger]
            is_nonce(nonce@, username@, nonce_secret@, timestamp as nat),
{
    let now = unix_now();
    nonce_at(username, nonce_secret, now)
}

/// The hexadecimal rendering has two characters per byte.
pub proof fn lemma_hex_text_len(bytes: Seq<u8>)
    ensures
        hex_text(bytes).len() == 2 * bytes.len(),
    decreases bytes.len(),
{
    if bytes.len() > 0 {
        lemma_hex_text_len(bytes.drop_last());
    }
}

/// A nonce is its timestamp, one colon, and two hexadecimal characters for
/// each byte of the tag: whoever holds the secret can split it at the first
/// colon and recompute the rest.
pub proof fn lemma_nonce_shape(username: Seq<char>, secret: Seq<char>, timestamp: nat)
    ensures
        nonce_text(username, secret, timestamp).len() == decimal_text(timestamp).len() + 1 + 2
            * hmac_sha256_tag(
            encode_utf8(secret),
            encode_utf8(nonce_message(username, timestamp)),
        ).len(),
        nonce_text(username, secret, timestamp).subrange(0, decimal_text(timestamp).len() as int)
            == decimal_text(timestamp),
        nonce_text(username, secret, timestamp)[decimal_text(timestamp).len() as int] == ':',
        forall|i: int|
            0 <= i < decimal_text(timestamp).len() ==> #[trigger] nonce_text(
                username,
                secret,
                timestamp,
            )[i] != ':',
{
    let tag = hmac_sha256_tag(encode_utf8(secret), encode_utf8(nonce_message(username, timestamp)));
    lemma_hex_text_len(tag);
    lemma_decimal_text_digits(timestamp);
    let d = decimal_text(timestamp);
    let n = nonce_text(username, secret, timestamp);
    assert(n.subrange(0, d.len() as int) =~= d);
    assert forall|i: int| 0 <= i < d.len() implies #[trigger] n[i] != ':' by {
        assert(n[i] == d[i]);
    }
}

} // verus!

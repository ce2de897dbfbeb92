//! One-way credential digests.
//!
//! A raw bearer token is never stored: at login its SHA3-256 digest is
//! hex-encoded and persisted, and on every authenticated request the same
//! transform is applied to the presented token and compared against the
//! stored value. Equality of digests stands in for equality of raw tokens.

use sha3::Digest;
use vstd::prelude::*;

verus! {

/// The SHA3-256 digest of a byte sequence. The digest is a fixed function
/// of its input alone; its value is not given here.
pub uninterp spec fn sha3_256_of(bytes: Seq<u8>) -> Seq<u8>;

/// The lower-case hex character for a value below 16.
pub open spec fn hex_digit(n: u8) -> char
    recommends
        n < 16,
{
    if n == 0 {
        '0'
    } else if n == 1 {
        '1'
    } else if n == 2 {
        '2'
    } else if n == 3 {
        '3'
    } else if n == 4 {
        '4'
    } else if n == 5 {
        '5'
    } else if n == 6 {
        '6'
    } else if n == 7 {
        '7'
    } else if n == 8 {
        '8'
    } else if n == 9 {
        '9'
    } else if n == 10 {
        'a'
    } else if n == 11 {
        'b'
    } else if n == 12 {
        'c'
    } else if n == 13 {
        'd'
    } else if n == 14 {
        'e'
    } else {
        'f'
    }
}

/// The lower-case hex encoding of a byte sequence: two characters per
/// byte, high nibble first.
pub open spec fn hex_of(bytes: Seq<u8>) -> Seq<char>
    decreases bytes.len(),
{
    if bytes.len() == 0 {
        Seq::empty()
    } else {
        hex_of(bytes.drop_last()).push(hex_digit(bytes.last() / 16)).push(
            hex_digit(bytes.last() % 16),
        )
    }
}

/// The stored form of a raw bearer token: the hex encoding of its
/// SHA3-256 digest, computed over the token's UTF-8 bytes.
pub open spec fn token_digest(token: Seq<char>) -> Seq<char> {
    hex_of(sha3_256_of(vstd::utf8::encode_utf8(token)))
}

/// Relies on `sha3::Sha3_256` (through the `Digest` trait): the digest is
/// 32 bytes and depends on the input bytes alone.
#[verifier::external_body]
pub(crate) fn sha3_256(bytes: &[u8]) -> (digest: Vec<u8>)
    ensures
        digest@ == sha3_256_of(bytes@),
        digest@.len() == 32,
{
    sha3::Sha3_256::digest(bytes).to_vec()
}

/// Relies on `hex::encode`: lower-case hex, two digits per byte, high
/// nibble first.
#[verifier::external_body]
fn hex_encode(bytes: &Vec<u8>) -> (encoded: String)
    ensures
        encoded@ == hex_of(bytes@),
{
    hex::encode(bytes)
}

/// Hashes a raw bearer token into its stored comparison form: 64 hex
/// characters.
pub fn hash_token(token: &str) -> (digest: String)
    ensures
        digest@ == token_digest(token@),
        digest@.len() == 64,
{
    let raw = sha3_256(token.as_bytes());
    proof {
        lemma_hex_of_len(raw@);
    }
    hex_encode(&raw)
}

/// A hex encoding is twice as long as its input.
pub proof fn lemma_hex_of_len(bytes: Seq<u8>)
    ensures
        hex_of(bytes).len() == 2 * bytes.len(),
    decreases bytes.len(),
{
    if bytes.len() > 0 {
        lemma_hex_of_len(bytes.drop_last());
    }
}

} // verus!

//! The content hash of a `SensorEvent`: SHA-256 over the event's canonical
//! serialization, rendered in lowercase hex. The digest itself comes from
//! the `sha2` crate and the hex rendering from the `hex` crate, each behind
//! a trusted wrapper; everything around them is verified.

use vstd::prelude::*;

verus! {

/// The lowercase hexadecimal digit character for a value below sixteen.
pub open spec fn spec_hex_digit(d: int) -> char {
    if d == 0 {
        '0'
    } else if d == 1 {
        '1'
    } else if d == 2 {
        '2'
    } else if d == 3 {
        '3'
    } else if d == 4 {
        '4'
    } else if d == 5 {
        '5'
    } else if d == 6 {
        '6'
    } else if d == 7 {
        '7'
    } else if d == 8 {
        '8'
    } else if d == 9 {
        '9'
    } else if d == 10 {
        'a'
    } else if d == 11 {
        'b'
    } else if d == 12 {
        'c'
    } else if d == 13 {
        'd'
    } else if d == 14 {
        'e'
    } else {
        'f'
    }
}

/// Lowercase hex rendering of a byte sequence: two digits per byte, high
/// nibble first.
pub open spec fn spec_hex_of(bytes: Seq<u8>) -> Seq<char>
    decreases bytes.len(),
{
    if bytes.len() == 0 {
        Seq::empty()
    } else {
        seq![
            spec_hex_digit(bytes[0] as int / 16),
            spec_hex_digit(bytes[0] as int % 16),
        ] + spec_hex_of(bytes.drop_first())
    }
}

/// Whether a character is a lowercase hexadecimal digit.
pub open spec fn is_lower_hex_char(c: char) -> bool {
    ('0' <= c && c <= '9') || ('a' <= c && c <= 'f')
}

/// The shape of a content hash string: 64 lowercase hexadecimal digits.
pub open spec fn hash_wf(h: Seq<char>) -> bool {
    h.len() == 64 && forall|i: int| 0 <= i < h.len() ==> is_lower_hex_char(#[trigger] h[i])
}

/// A hex rendering is twice as long as its input and made of lowercase
/// hexadecimal digits only.
pub proof fn lemma_hex_of_shape(bytes: Seq<u8>)
    ensures
        spec_hex_of(bytes).len() == 2 * bytes.len(),
        forall|i: int|
            0 <= i < spec_hex_of(bytes).len() ==> is_lower_hex_char(#[trigger] spec_hex_of(bytes)[i]),
    decreases bytes.len(),
{
    if bytes.len() > 0 {
        lemma_hex_of_shape(bytes.drop_first());
    }
}

/// The SHA-256 digest of a character sequence, taken over its UTF-8 bytes.
/// The digest is a fixed function of the characters alone; its value is not
/// restated here.
pub uninterp spec fn sha256_of(s: Seq<char>) -> Seq<u8>;

/// Relies on sha2's `Sha256::digest`: the digest depends on the input bytes
/// alone, and a SHA-256 digest is 32 bytes long.
#[verifier::external_body]
pub fn sha256_digest(s: &str) -> (r: Vec<u8>)
    ensures
        r@ == sha256_of(s@),
        r@.len() == 32,
{
    <sha2::Sha256 as sha2::Digest>::digest(s.as_bytes()).to_vec()
}

/// Relies on hex's `encode`: lowercase hex, two digits per byte, high nibble
/// first.
#[verifier::external_body]
pub fn hex_encode(bytes: &Vec<u8>) -> (r: String)
    ensures
        r@ == spec_hex_of(bytes@),
{
    hex::encode(bytes)
}

/// The hash string recorded on a `SensorEvent`: lowercase hex of the SHA-256
/// digest of its canonical serialization (a character sequence).
pub open spec fn spec_hash_hex(serialized: Seq<char>) -> Seq<char> {
    spec_hex_of(sha256_of(serialized))
}

/// Computes the hash string for an already serialized event.
pub fn hash_hex(serialized: &str) -> (r: String)
    ensures
        r@ == spec_hash_hex(serialized@),
        hash_wf(r@),
{
    let digest = sha256_digest(serialized);
    let out = hex_encode(&digest);
    proof {
        lemma_hex_of_shape(digest@);
    }
    out
}

} // verus!

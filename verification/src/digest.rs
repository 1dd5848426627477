//! The digest of a record: SHA-256 over the record's fields written one
//! after the other, rendered as sixty-four lowercase hexadecimal characters.

use crate::decimal::{append_decimal, decimal_text, lemma_decimal_text_injective};
use crate::hex::{hex_text, is_lower_hex, lemma_hex_text_injective, to_hex};
use sha2::{Digest, Sha256};
use vstd::prelude::*;
use vstd::utf8::{decode_utf8, encode_utf8, encode_utf8_decode_utf8};

verus! {

/// The SHA-256 hash of a byte string.
pub uninterp spec fn sha256(data: Seq<u8>) -> Seq<u8>;

/// Calls `sha2::Sha256::digest`, which hashes the whole of `data` in one go.
/// Trusted: the result is the SHA-256 hash of `data`, a function of the bytes
/// alone, and is thirty-two bytes long.
#[verifier::external_body]
fn sha256_bytes(data: &[u8]) -> (out: Vec<u8>)
    ensures
        out@ == sha256(data@),
        out@.len() == 32,
{
    Sha256::digest(data).to_vec()
}

/// The text that is hashed: index, timestamp, payload, previous digest and
/// nonce in this order, the numbers in decimal, nothing between the fields.
pub open spec fn preimage(
    index: u32,
    timestamp: u64,
    data: Seq<char>,
    previous_hash: Seq<char>,
    nonce: u64,
) -> Seq<char> {
    decimal_text(index as nat) + decimal_text(timestamp as nat) + data + previous_hash
        + decimal_text(nonce as nat)
}

/// The digest of a text: the hexadecimal text of the SHA-256 hash of its
/// UTF-8 bytes.
pub open spec fn text_digest(text: Seq<char>) -> Seq<char> {
    hex_text(sha256(encode_utf8(text)))
}

/// Two different byte strings with the same SHA-256 hash. None is known.
pub open spec fn sha256_collision(a: Seq<u8>, b: Seq<u8>) -> bool {
    a != b && sha256(a) == sha256(b)
}

/// The digest of the five fields: the digest of their preimage.
pub open spec fn digest_text(
    index: u32,
    timestamp: u64,
    data: Seq<char>,
    previous_hash: Seq<char>,
    nonce: u64,
) -> Seq<char> {
    text_digest(preimage(index, timestamp, data, previous_hash, nonce))
}

/// Computes the digest of the five fields.
pub fn digest(
    index: u32,
    timestamp: u64,
    data: &str,
    previous_hash: &str,
    nonce: u64,
) -> (out: String)
    ensures
        out@ == digest_text(index, timestamp, data@, previous_hash@, nonce),
        out@.len() == 64,
        forall|i: int| 0 <= i < 64 ==> is_lower_hex(#[trigger] out@[i]),
{
    let mut input = String::new();
    append_decimal(&mut input, index as u64);
    append_decimal(&mut input, timestamp);
    input.append(data);
    input.append(previous_hash);
    append_decimal(&mut input, nonce);
    let hash = sha256_bytes(input.as_str().as_bytes());
    to_hex(hash.as_slice())
}

/// Different texts have different digests, unless their UTF-8 bytes are a
/// collision of SHA-256.
pub proof fn lemma_digest_tells_texts_apart(a: Seq<char>, b: Seq<char>)
    requires
        a != b,
        !sha256_collision(encode_utf8(a), encode_utf8(b)),
    ensures
        text_digest(a) != text_digest(b),
{
    // decoding gives the text back, so different texts have different bytes
    encode_utf8_decode_utf8(a);
    encode_utf8_decode_utf8(b);
    assert(encode_utf8(a) != encode_utf8(b));
    if text_digest(a) == text_digest(b) {
        lemma_hex_text_injective(sha256(encode_utf8(a)), sha256(encode_utf8(b)));
    }
}

/// Preimages that agree in all but the payload differ where the payloads do.
pub proof fn lemma_preimage_tells_payloads_apart(
    index: u32,
    timestamp: u64,
    data: Seq<char>,
    other: Seq<char>,
    previous_hash: Seq<char>,
    nonce: u64,
)
    requires
        data != other,
    ensures
        preimage(index, timestamp, data, previous_hash, nonce) != preimage(
            index,
            timestamp,
            other,
            previous_hash,
            nonce,
        ),
{
    let head = decimal_text(index as nat) + decimal_text(timestamp as nat);
    let tail = previous_hash + decimal_text(nonce as nat);
    let a = preimage(index, timestamp, data, previous_hash, nonce);
    let b = preimage(index, timestamp, other, previous_hash, nonce);
    assert(a =~= head + data + tail);
    assert(b =~= head + other + tail);
    if a == b {
        assert forall|k: int| 0 <= k < data.len() implies data[k] == other[k] by {
            assert(a[head.len() + k] == data[k]);
            assert(b[head.len() + k] == other[k]);
        }
        assert(data =~= other);
    }
}

/// Preimages that agree in all but the nonce differ where the nonces do.
pub proof fn lemma_preimage_tells_nonces_apart(
    index: u32,
    timestamp: u64,
    data: Seq<char>,
    previous_hash: Seq<char>,
    nonce: u64,
    other: u64,
)
    requires
        nonce != other,
    ensures
        preimage(index, timestamp, data, previous_hash, nonce) != preimage(
            index,
            timestamp,
            data,
            previous_hash,
            other,
        ),
{
    let head = decimal_text(index as nat) + decimal_text(timestamp as nat) + data + previous_hash;
    let x = decimal_text(nonce as nat);
    let y = decimal_text(other as nat);
    let a = preimage(index, timestamp, data, previous_hash, nonce);
    let b = preimage(index, timestamp, data, previous_hash, other);
    assert(a =~= head + x);
    assert(b =~= head + y);
    if a == b {
        assert forall|k: int| 0 <= k < x.len() implies x[k] == y[k] by {
            assert(a[head.len() + k] == x[k]);
            assert(b[head.len() + k] == y[k]);
        }
        assert(x =~= y);
        lemma_decimal_text_injective(nonce as nat, other as nat);
    }
}

} // verus!

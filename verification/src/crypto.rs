//! Byte-level primitives the protocol is built on: lower-case hex text,
//! SHA-256 digests and Ed25519 signatures.
//!
//! Hex encoding and decoding are stated exactly; SHA-256 and Ed25519 are
//! called through the `sha2` and `ed25519-dalek` crates and named here.

use ed25519_dalek::{Signature as DalekSignature, Signer, SigningKey, VerifyingKey};
use sha2::{Digest, Sha256};
use vstd::prelude::*;

verus! {

// ---------------------------------------------------------------- hex text

/// The lower-case hex digit for a nibble value `0..16`.
pub open spec fn hex_digit(n: int) -> char {
    if n < 10 {
        (48 + n) as char
    } else {
        (87 + n) as char
    }
}

/// Lower-case hex text of a byte string: two digits per byte, high nibble first.
pub open spec fn hex_lower(bytes: Seq<u8>) -> Seq<char> {
    Seq::new(
        2 * bytes.len(),
        |i: int|
            if i % 2 == 0 {
                hex_digit((bytes[i / 2] / 16) as int)
            } else {
                hex_digit((bytes[i / 2] % 16) as int)
            },
    )
}

/// The value of one hex digit byte, accepting upper and lower case.
pub open spec fn hex_nibble(c: u8) -> Option<u8> {
    if 48 <= c <= 57 {
        Some((c - 48) as u8)
    } else if 97 <= c <= 102 {
        Some((c - 87) as u8)
    } else if 65 <= c <= 70 {
        Some((c - 55) as u8)
    } else {
        None
    }
}

/// Hex text decodes when it has an even length and every byte is a hex digit.
pub open spec fn hex_decodes(text: Seq<u8>) -> bool {
    &&& text.len() % 2 == 0
    &&& forall|i: int| 0 <= i < text.len() ==> (#[trigger] hex_nibble(text[i])) is Some
}

/// The bytes that decodable hex text stands for.
pub open spec fn hex_decoded(text: Seq<u8>) -> Seq<u8> {
    Seq::new(
        text.len() / 2,
        |i: int|
            (hex_nibble(text[2 * i])->0 * 16 + hex_nibble(text[2 * i + 1])->0) as u8,
    )
}

/// Decoding of hex text: `None` unless the text is decodable.
pub open spec fn hex_decode_spec(text: Seq<u8>) -> Option<Seq<u8>> {
    if hex_decodes(text) {
        Some(hex_decoded(text))
    } else {
        None
    }
}

/// `hex::encode`: the lower-case hex text of `bytes`.
#[verifier::external_body]
pub(crate) fn hex_encode(bytes: &[u8]) -> (text: String)
    ensures
        text@ == hex_lower(bytes@),
{
    hex::encode(bytes)
}

/// `hex::decode`: the bytes of hex text, or `None` when it has an odd length or
/// a byte that is not a hex digit of either case.
#[verifier::external_body]
pub(crate) fn hex_decode(text: &[u8]) -> (bytes: Option<Vec<u8>>)
    ensures
        match bytes {
            Some(b) => hex_decode_spec(text@) == Some(b@),
            None => hex_decode_spec(text@) is None,
        },
{
    match hex::decode(text) {
        Ok(bytes) => Some(bytes),
        Err(_) => None,
    }
}

/// Lower-case hex text is ASCII.
pub proof fn lemma_hex_lower_ascii(bytes: Seq<u8>)
    ensures
        vstd::utf8::is_ascii_chars(hex_lower(bytes)),
{
    assert forall|i: int| 0 <= i < hex_lower(bytes).len() implies '\0' <= #[trigger] hex_lower(
        bytes,
    )[i] <= '\u{7f}' by {
        let b = bytes[i / 2];
        assert(b / 16 < 16);
        assert(b % 16 < 16);
    }
}

/// Decoding the UTF-8 bytes of lower-case hex text gives the original bytes back.
pub proof fn lemma_hex_round_trip(bytes: Seq<u8>)
    ensures
        hex_decode_spec(vstd::utf8::encode_utf8(hex_lower(bytes))) == Some(bytes),
{
    let h = hex_lower(bytes);
    lemma_hex_lower_ascii(bytes);
    vstd::utf8::is_ascii_chars_encode_utf8(h);
    let e = vstd::utf8::encode_utf8(h);
    assert forall|i: int| 0 <= i < e.len() implies (#[trigger] hex_nibble(e[i])) is Some
        && hex_nibble(e[i])->0 == (if i % 2 == 0 {
        bytes[i / 2] / 16
    } else {
        bytes[i / 2] % 16
    }) by {
        assert(h[i] as u8 == e[i]);
    }
    assert(hex_decodes(e));
    assert forall|j: int| 0 <= j < bytes.len() implies #[trigger] hex_decoded(e)[j] == bytes[j] by {
        assert(hex_nibble(e[2 * j]) is Some);
        assert(hex_nibble(e[2 * j + 1]) is Some);
        assert((2 * j) % 2 == 0);
        assert((2 * j + 1) % 2 == 1);
        assert((2 * j) / 2 == j);
        assert((2 * j + 1) / 2 == j);
    }
    assert(hex_decoded(e) =~= bytes);
}

// ---------------------------------------------------------------- SHA-256

/// The SHA-256 digest of a byte string, as `sha2::Sha256` computes it.
pub uninterp spec fn sha256_of(data: Seq<u8>) -> Seq<u8>;

/// `sha2::Sha256::digest`: the 32-byte SHA-256 digest of `data`.
#[verifier::external_body]
pub(crate) fn sha256(data: &[u8]) -> (digest: Vec<u8>)
    ensures
        digest@ == sha256_of(data@),
        digest@.len() == 32,
{
    Sha256::digest(data).to_vec()
}

// ---------------------------------------------------------------- Ed25519

/// The compressed Ed25519 public key that `ed25519-dalek` derives from a 32-byte seed.
pub uninterp spec fn ed25519_public_of(seed: Seq<u8>) -> Seq<u8>;

/// The deterministic Ed25519 signature that `ed25519-dalek` makes of `msg` with a seed.
pub uninterp spec fn ed25519_signature_of(seed: Seq<u8>, msg: Seq<u8>) -> Seq<u8>;

/// Whether `ed25519-dalek` decompresses 32 bytes into a curve point.
pub uninterp spec fn ed25519_key_decodes(public_key: Seq<u8>) -> bool;

/// Whether `ed25519-dalek`'s strict verification accepts a signature of `msg`.
pub uninterp spec fn ed25519_verifies(public_key: Seq<u8>, msg: Seq<u8>, signature: Seq<u8>) -> bool;

/// `SigningKey::from_bytes(seed).verifying_key().to_bytes()`. The key is the
/// compression of a point, so it decompresses again.
#[verifier::external_body]
pub(crate) fn ed25519_public_key(seed: &[u8; 32]) -> (public_key: [u8; 32])
    ensures
        public_key@ == ed25519_public_of(seed@),
        ed25519_key_decodes(public_key@),
{
    SigningKey::from_bytes(seed).verifying_key().to_bytes()
}

/// `SigningKey::from_bytes(seed).sign(msg).to_bytes()`. Ed25519 signing is
/// deterministic: one seed and one message give one signature. Whether strict
/// verification accepts it is left to `ed25519_verifies`: `verify_strict`
/// refuses a signature whose R is of small order, which signing can produce.
#[verifier::external_body]
pub(crate) fn ed25519_sign(seed: &[u8; 32], msg: &[u8]) -> (signature: [u8; 64])
    ensures
        signature@ == ed25519_signature_of(seed@, msg@),
{
    SigningKey::from_bytes(seed).sign(msg).to_bytes()
}

/// `VerifyingKey::from_bytes(public_key)` succeeds.
#[verifier::external_body]
pub(crate) fn ed25519_key_is_valid(public_key: &[u8; 32]) -> (valid: bool)
    ensures
        valid == ed25519_key_decodes(public_key@),
{
    match VerifyingKey::from_bytes(public_key) {
        Ok(_) => true,
        Err(_) => false,
    }
}

/// `VerifyingKey::verify_strict` of a signature over `msg`.
#[verifier::external_body]
pub(crate) fn ed25519_verify_strict(public_key: &[u8; 32], msg: &[u8], signature: &[u8; 64]) -> (ok: bool)
    requires
        ed25519_key_decodes(public_key@),
    ensures
        ok == ed25519_verifies(public_key@, msg@, signature@),
{
    match VerifyingKey::from_bytes(public_key) {
        Ok(key) => key.verify_strict(msg, &DalekSignature::from_bytes(signature)).is_ok(),
        Err(_) => false,
    }
}

} // verus!

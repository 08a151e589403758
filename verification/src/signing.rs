use vstd::prelude::*;
use vstd::string::StringSliceAdditionalSpecFns;

use sha3::Digest;

use crate::error::SignatureError;
use crate::hexfmt::{hex_bytes_of, hex_chars_of, hex_decode, hex_encode, valid_hex};

verus! {

/// The digest that the Keccak-256 hash assigns to `data`. The hash is a
/// pure function of its input; its value is not spelled out here.
pub uninterp spec fn keccak256_of(data: Seq<u8>) -> Seq<u8>;

/// The compact signature that deterministic ECDSA over the secp256k1 curve
/// assigns to a 32-byte `digest` under the 32-byte secret `key`. With the
/// nonce fixed by RFC 6979 the signature is a pure function of the two.
pub uninterp spec fn ecdsa_compact_of(digest: Seq<u8>, key: Seq<u8>) -> Seq<u8>;

/// Whether 32 key bytes form a usable secp256k1 secret key: nonzero and
/// below the curve order. The curve alone decides this, so it is a pure
/// function of the bytes; its value is not spelled out here.
pub uninterp spec fn valid_secp256k1_key(key: Seq<u8>) -> bool;

/// Relies on sha3::Keccak256::digest: a 32-byte digest that depends on the
/// input bytes alone.
#[verifier::external_body]
fn keccak256(data: &[u8]) -> (r: Vec<u8>)
    ensures
        r@ == keccak256_of(data@),
        r@.len() == 32,
{
    sha3::Keccak256::digest(data).to_vec()
}

/// Relies on secp256k1: SecretKey::from_slice fails exactly when the key is
/// not 32 bytes or lies outside the curve order; Message::from_digest_slice
/// accepts a 32-byte digest; Secp256k1::sign_ecdsa signs with the RFC 6979
/// nonce, so the signature depends on the digest and key bytes alone; and
/// Signature::serialize_compact yields the 64-byte compact form.
#[verifier::external_body]
fn ecdsa_sign_digest(digest: &[u8], key: &[u8]) -> (r: Option<Vec<u8>>)
    requires
        digest@.len() == 32,
    ensures
        r is Some ==> key@.len() == 32 && valid_secp256k1_key(key@),
        key@.len() == 32 && valid_secp256k1_key(key@) ==> r is Some,
        r matches Some(sig) ==> sig@ == ecdsa_compact_of(digest@, key@) && sig@.len() == 64,
{
    let sk = match secp256k1::SecretKey::from_slice(key) {
        Ok(k) => k,
        Err(_) => return None,
    };
    let msg = match secp256k1::Message::from_digest_slice(digest) {
        Ok(m) => m,
        Err(_) => return None,
    };
    let secp = secp256k1::Secp256k1::new();
    Some(secp.sign_ecdsa(&msg, &sk).serialize_compact().to_vec())
}

/// Hashes `data` with Keccak-256 and signs the digest with the secret key
/// given as a hex text, returning the signature as 128 lowercase hex digits.
/// It succeeds exactly when the secret is well-formed hex decoding to a
/// usable 32-byte key: a malformed hex secret is reported as such before
/// anything is signed, and a decoded secret that the curve rejects is
/// reported as an invalid key. `data` may be any bytes, the empty slice
/// included.
pub fn mock_sign_data(data: &[u8], private_key_hex: &str) -> (r: Result<String, SignatureError>)
    ensures
        r matches Err(SignatureError::HexDecodeError(_)) <==> !valid_hex(
            private_key_hex.spec_bytes(),
        ),
        r is Ok <==> valid_hex(private_key_hex.spec_bytes()) && hex_bytes_of(
            private_key_hex.spec_bytes(),
        ).len() == 32 && valid_secp256k1_key(hex_bytes_of(private_key_hex.spec_bytes())),
        r matches Ok(sig) ==> sig@ == hex_chars_of(
            ecdsa_compact_of(
                keccak256_of(data@),
                hex_bytes_of(private_key_hex.spec_bytes()),
            ),
        ) && sig@.len() == 128,
{
    let key = match hex_decode(private_key_hex) {
        Ok(k) => k,
        Err(m) => {
            return Err(SignatureError::HexDecodeError(m));
        },
    };
    let digest = keccak256(data);
    match ecdsa_sign_digest(digest.as_slice(), key.as_slice()) {
        Some(sig) => Ok(hex_encode(sig.as_slice())),
        None => Err(SignatureError::InvalidKey),
    }
}

} // verus!

//! Ed25519 signature checks on bundle manifests.

use vstd::prelude::*;
use ed25519_dalek::{Signature, Signer, SigningKey, Verifier, VerifyingKey};

verus! {

#[verifier::external_type_specification]
#[verifier::external_body]
pub struct ExVerifyingKey(VerifyingKey);

#[verifier::external_type_specification]
#[verifier::external_body]
pub struct ExSignature(Signature);

/// Whether 32 bytes are the compressed form of a curve point, that is,
/// whether they decode to an Ed25519 public key.
pub uninterp spec fn ed25519_key_decodes(key: Seq<u8>) -> bool;

/// Whether `signature` is a valid Ed25519 signature of `message` under the
/// public key `key`.
pub uninterp spec fn ed25519_verifies(key: Seq<u8>, message: Seq<u8>, signature: Seq<u8>) -> bool;

/// An Ed25519 public key, with the bytes it was decoded from.
pub struct PublicKey {
    key: VerifyingKey,
    bytes: [u8; 32],
}

impl PublicKey {
    /// The bytes the key was decoded from.
    pub closed spec fn key_bytes(&self) -> Seq<u8> {
        self.bytes@
    }
}

/// An Ed25519 signature, with the bytes it was read from.
pub struct SignatureBytes {
    signature: Signature,
    bytes: Vec<u8>,
}

impl SignatureBytes {
    /// The bytes the signature was read from.
    pub closed spec fn signature_bytes(&self) -> Seq<u8> {
        self.bytes@
    }
}

/// `VerifyingKey::from_bytes` (ed25519-dalek): decodes a public key, failing
/// when the bytes are not a point on the curve. The error, a
/// `signature::Error` whose source is the point-decompression failure, is
/// rendered as text: with the crates' `std` features on, which the default
/// features turn on, it reads as stated.
#[verifier::external_body]
pub(crate) fn decode_public_key(bytes: &[u8; 32]) -> (r: Result<PublicKey, String>)
    ensures
        r is Ok == ed25519_key_decodes(bytes@),
        r matches Ok(k) ==> k.key_bytes() == bytes@,
        r matches Err(t) ==> t@ == "signature error: Cannot decompress Edwards point"@,
{
    match VerifyingKey::from_bytes(bytes) {
        Ok(key) => Ok(PublicKey { key, bytes: *bytes }),
        Err(error) => Err(error.to_string()),
    }
}

/// `Signature::from_slice` (ed25519): reads a signature, failing exactly
/// when the input is not 64 bytes long, with a `signature::Error` that has
/// no source and renders as stated.
#[verifier::external_body]
pub(crate) fn parse_signature(bytes: &[u8]) -> (r: Result<SignatureBytes, String>)
    ensures
        r is Ok == (bytes@.len() == 64),
        r matches Ok(s) ==> s.signature_bytes() == bytes@,
        r matches Err(t) ==> t@ == "signature error"@,
{
    match Signature::from_slice(bytes) {
        Ok(signature) => Ok(SignatureBytes { signature, bytes: bytes.to_vec() }),
        Err(error) => Err(error.to_string()),
    }
}

/// `VerifyingKey::verify` (ed25519-dalek, through `Verifier`): whether the
/// signature of `message` is valid under the key.
#[verifier::external_body]
pub(crate) fn verify_signature(key: &PublicKey, message: &[u8], signature: &SignatureBytes) -> (r: bool)
    ensures
        r == ed25519_verifies(key.key_bytes(), message@, signature.signature_bytes()),
{
    key.key.verify(message, &signature.signature).is_ok()
}

/// The Ed25519 public key that goes with the 32-byte secret key `secret`.
pub uninterp spec fn ed25519_public_key(secret: Seq<u8>) -> Seq<u8>;

/// The Ed25519 signature of `message` under the 32-byte secret key `secret`
/// (Ed25519 signing is deterministic).
pub uninterp spec fn ed25519_signature(secret: Seq<u8>, message: Seq<u8>) -> Seq<u8>;

/// `SigningKey::from_bytes` then `SigningKey::verifying_key` (ed25519-dalek):
/// the public key of a secret key, as bytes. Such a key is a point on the
/// curve, so it decodes.
#[verifier::external_body]
pub(crate) fn public_key_of(secret: &[u8; 32]) -> (r: [u8; 32])
    ensures
        r@ == ed25519_public_key(secret@),
        ed25519_key_decodes(r@),
{
    SigningKey::from_bytes(secret).verifying_key().to_bytes()
}

/// `SigningKey::from_bytes` then `Signer::sign` (ed25519-dalek): the
/// signature of `message` under a secret key, as bytes. A signature made so
/// verifies under the key's public key.
#[verifier::external_body]
pub(crate) fn sign_message(secret: &[u8; 32], message: &[u8]) -> (r: [u8; 64])
    ensures
        r@ == ed25519_signature(secret@, message@),
        ed25519_verifies(ed25519_public_key(secret@), message@, r@),
{
    SigningKey::from_bytes(secret).sign(message).to_bytes()
}

} // verus!

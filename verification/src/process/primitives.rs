//! The cryptographic primitives, each reached through one trusted function.
//! What a primitive computes is named, not written out: the names below stand
//! for the results of the outside functions on given bytes.

use ed25519_dalek::{Signature, Signer, SigningKey, Verifier, VerifyingKey};
use vstd::prelude::*;

verus! {

/// The 32-byte digest that `blake3::keyed_hash` gives for a 32-byte key and a
/// message.
pub uninterp spec fn blake3_keyed_hash(key: Seq<u8>, message: Seq<u8>) -> [u8; 32];

/// The 64-byte signature that `SigningKey::sign` gives for a message under the
/// signing key made from 32 secret bytes. Signing is deterministic.
pub uninterp spec fn ed25519_signature(secret: Seq<u8>, message: Seq<u8>) -> [u8; 64];

/// The 32-byte encoding of the verifying key that belongs to the signing key
/// made from 32 secret bytes.
pub uninterp spec fn ed25519_public_of(secret: Seq<u8>) -> [u8; 32];

/// Whether `VerifyingKey::from_bytes` takes these 32 bytes as the encoding of
/// a point of the curve, asked of bytes that are not known to be the public
/// key of any secret key.
pub uninterp spec fn ed25519_decodes(bytes: Seq<u8>) -> bool;

/// What `VerifyingKey::verify` decides on a signature that is not known to be
/// made by the owner of the key for this very message.
pub uninterp spec fn ed25519_check(public: Seq<u8>, message: Seq<u8>, sig: Seq<u8>) -> bool;

/// `public` is the public key of some secret key.
pub open spec fn ed25519_derived(public: Seq<u8>) -> bool {
    exists|secret: Seq<u8>| secret.len() == 32 && (#[trigger] ed25519_public_of(secret))@ == public
}

/// The byte patterns that are public keys: every public key that was derived
/// from a secret key, and whatever else decodes to a point of the curve.
pub open spec fn ed25519_is_public_key(bytes: Seq<u8>) -> bool {
    ed25519_derived(bytes) || ed25519_decodes(bytes)
}

/// `sig` is what signing `message` gives under some secret key whose public
/// key is `public`.
pub open spec fn ed25519_signed_by_owner(
    public: Seq<u8>,
    message: Seq<u8>,
    sig: Seq<u8>,
) -> bool {
    exists|secret: Seq<u8>|
        secret.len() == 32 && (#[trigger] ed25519_public_of(secret))@ == public
            && ed25519_signature(secret, message)@ == sig
}

/// The verdict of the asymmetric scheme: every signature that the owner made
/// is accepted, and of any other the scheme decides.
pub open spec fn ed25519_accepts(public: Seq<u8>, message: Seq<u8>, sig: Seq<u8>) -> bool {
    ed25519_signed_by_owner(public, message, sig) || ed25519_check(public, message, sig)
}

/// Calls `blake3::keyed_hash` and copies the digest out of the `Hash`.
/// Trusted: the result is the named digest of exactly these key and message
/// bytes.
#[verifier::external_body]
pub(crate) fn keyed_hash(key: &[u8; 32], message: &[u8]) -> (digest: [u8; 32])
    ensures
        digest@ == blake3_keyed_hash(key@, message@)@,
{
    *blake3::keyed_hash(key, message).as_bytes()
}

/// Calls `SigningKey::from_bytes`, then `Signer::sign`, then
/// `Signature::to_bytes`. Trusted: the result is the named signature of
/// exactly these secret and message bytes.
#[verifier::external_body]
pub(crate) fn ed25519_sign(secret: &[u8; 32], message: &[u8]) -> (sig: [u8; 64])
    ensures
        sig@ == ed25519_signature(secret@, message@)@,
{
    SigningKey::from_bytes(secret).sign(message).to_bytes()
}

/// Calls `SigningKey::from_bytes`, then `SigningKey::verifying_key` and
/// `VerifyingKey::to_bytes`. Trusted: the result is the named public key of
/// these secret bytes.
#[verifier::external_body]
pub(crate) fn ed25519_derive_public(secret: &[u8; 32]) -> (public: [u8; 32])
    ensures
        public@ == ed25519_public_of(secret@)@,
{
    SigningKey::from_bytes(secret).verifying_key().to_bytes()
}

/// Calls `VerifyingKey::from_bytes` and drops the key. Trusted: it succeeds
/// exactly on the byte patterns that decode to a point of the curve, and
/// the public key that the crate derived from a secret key is one of them.
#[verifier::external_body]
pub(crate) fn ed25519_decode_public(bytes: &[u8; 32]) -> (r: Result<
    (),
    ed25519_dalek::SignatureError,
>)
    ensures
        r is Ok <==> (ed25519_derived(bytes@) || ed25519_decodes(bytes@)),
{
    match VerifyingKey::from_bytes(bytes) {
        Ok(_) => Ok(()),
        Err(e) => Err(e),
    }
}

/// Calls `VerifyingKey::from_bytes`, `Signature::from_bytes` and
/// `Verifier::verify`. Trusted: the answer is `true` exactly where the scheme
/// accepts, and the scheme accepts every signature that `sign` made under the
/// secret key of this public key.
#[verifier::external_body]
pub(crate) fn ed25519_verify(public: &[u8; 32], message: &[u8], sig: &[u8; 64]) -> (ok: bool)
    requires
        ed25519_is_public_key(public@),
    ensures
        ok == (ed25519_signed_by_owner(public@, message@, sig@) || ed25519_check(
            public@,
            message@,
            sig@,
        )),
{
    match VerifyingKey::from_bytes(public) {
        Ok(key) => key.verify(message, &Signature::from_bytes(sig)).is_ok(),
        Err(_) => false,
    }
}

#[verifier::external_type_specification]
#[verifier::external_body]
pub struct ExSignatureError(ed25519_dalek::SignatureError);

} // verus!

//! Signing and verifying text with a keyed hash or with an asymmetric
//! signature scheme, both behind the same two operations.
//!
//! Messages and keys arrive as bytes already read: the whole input is held in
//! memory, so the size of a message is bounded by what the caller can buffer.
//! Signatures travel as url-safe base64 text without padding.

use crate::cli::TextSignFormat;
use crate::error::TextError;
use crate::process::codec::{
    base64_decoded, base64_encoded, decode_url_safe, encode_url_safe, is_url_safe_text,
};
use crate::process::primitives::{
    blake3_keyed_hash, ed25519_accepts, ed25519_decode_public, ed25519_derive_public,
    ed25519_derived, ed25519_is_public_key, ed25519_public_of, ed25519_sign, ed25519_signature,
    ed25519_signed_by_owner, ed25519_verify, keyed_hash,
};
use crate::process::random::fill_from_os;
use vstd::prelude::*;
use vstd::slice::slice_to_vec;

verus! {

/// Makes a signature of a message.
pub trait TextSign {
    /// The signature that this signer gives to a message.
    spec fn signature_spec(&self, message: Seq<u8>) -> Seq<u8>;

    /// The length of every signature of this scheme.
    spec fn signature_len_spec() -> nat;

    /// Signs the whole message. Never fails once the key is loaded.
    fn sign(&self, message: &[u8]) -> (r: Result<Vec<u8>, TextError>)
        ensures
            r is Ok,
            r->Ok_0@ == self.signature_spec(message@),
            r->Ok_0@.len() == Self::signature_len_spec(),
    ;
}

/// Judges whether a signature belongs to a message.
pub trait TextVerify {
    /// The outcome this verifier owes for a message and raw signature bytes.
    spec fn verdict_spec(&self, message: Seq<u8>, sig: Seq<u8>) -> Result<bool, TextError>;

    /// Checks the signature against the whole message. A signature that does
    /// not match gives `Ok(false)`; an error is only for signature bytes that
    /// the scheme cannot even read.
    fn verify(&self, message: &[u8], sig: &[u8]) -> (r: Result<bool, TextError>)
        ensures
            r == self.verdict_spec(message@, sig@),
    ;
}

/// Makes a typed key out of the raw bytes of a key file.
pub trait KeyLoader: Sized {
    /// The key bytes that a loaded key holds.
    spec fn key_bytes(&self) -> Seq<u8>;

    /// Whether a blob is accepted as a key of this kind.
    spec fn loadable(blob: Seq<u8>) -> bool;

    /// The key bytes taken from an accepted blob.
    spec fn loaded_bytes(blob: Seq<u8>) -> Seq<u8>;

    /// Loads a key from the contents of a key file.
    fn load(blob: &[u8]) -> (r: Result<Self, TextError>)
        ensures
            match r {
                Ok(key) => Self::loadable(blob@) && key.key_bytes() == Self::loaded_bytes(blob@),
                Err(e) => !Self::loadable(blob@) && e == TextError::KeyFormat,
            },
    ;
}

/// Makes fresh key material.
pub trait KeyGenerator {
    /// What holds of every set of key blobs that generation hands out.
    spec fn well_generated(keys: Seq<Seq<u8>>) -> bool;

    /// Draws fresh key material from the system's random source. Fails only
    /// where that source gives nothing.
    fn generate() -> (r: Result<Vec<Vec<u8>>, TextError>)
        ensures
            match r {
                Ok(keys) => Self::well_generated(blobs(keys)),
                Err(e) => e == TextError::Generation,
            },
    ;
}

/// The byte contents of a list of key blobs.
pub open spec fn blobs(keys: Vec<Vec<u8>>) -> Seq<Seq<u8>> {
    keys@.map_values(|blob: Vec<u8>| blob@)
}

/// The keyed hash with its 32-byte secret key, which both signs and verifies.
pub struct Blake3 {
    key: [u8; 32],
}

/// The signing half of the asymmetric scheme: 32 secret bytes.
pub struct Ed25519Signer {
    key: [u8; 32],
}

/// The verifying half of the asymmetric scheme: 32 bytes that encode a point
/// of the curve.
pub struct Ed25519Verifier {
    key: [u8; 32],
}

impl View for Blake3 {
    type V = Seq<u8>;

    closed spec fn view(&self) -> Seq<u8> {
        self.key@
    }
}

impl View for Ed25519Signer {
    type V = Seq<u8>;

    closed spec fn view(&self) -> Seq<u8> {
        self.key@
    }
}

impl View for Ed25519Verifier {
    type V = Seq<u8>;

    closed spec fn view(&self) -> Seq<u8> {
        self.key@
    }
}

/// Copies the first 32 bytes of a slice into an array.
pub fn first_32(bytes: &[u8]) -> (out: [u8; 32])
    requires
        bytes@.len() >= 32,
    ensures
        out@ == bytes@.subrange(0, 32),
{
    let mut out = [0u8; 32];
    let mut i: usize = 0;
    while i < 32
        invariant
            i <= 32,
            bytes@.len() >= 32,
            forall|j: int| 0 <= j < i ==> out@[j] == bytes@[j],
        decreases 32 - i,
    {
        out[i] = bytes[i];
        i += 1;
    }
    assert(out@ =~= bytes@.subrange(0, 32));
    out
}

/// Reads raw signature bytes as the 64-byte signature of the asymmetric
/// scheme. Any other length is an encoding error.
pub fn signature_bytes(sig: &[u8]) -> (r: Result<[u8; 64], TextError>)
    ensures
        match r {
            Ok(out) => sig@.len() == 64 && out@ == sig@,
            Err(e) => sig@.len() != 64 && e == TextError::Encoding,
        },
{
    if sig.len() != 64 {
        return Err(TextError::Encoding);
    }
    let mut out = [0u8; 64];
    let mut i: usize = 0;
    while i < 64
        invariant
            i <= 64,
            sig@.len() == 64,
            forall|j: int| 0 <= j < i ==> out@[j] == sig@[j],
        decreases 64 - i,
    {
        out[i] = sig[i];
        i += 1;
    }
    assert(out@ =~= sig@);
    Ok(out)
}

/// Compares a digest with the signature bytes that a caller supplied, byte
/// for byte. Signature bytes of another length never match.
pub fn digest_matches(digest: &[u8; 32], sig: &[u8]) -> (same: bool)
    ensures
        same == (digest@ == sig@),
{
    if sig.len() != 32 {
        return false;
    }
    let mut i: usize = 0;
    while i < 32
        invariant
            i <= 32,
            sig@.len() == 32,
            forall|j: int| 0 <= j < i ==> digest@[j] == sig@[j],
        decreases 32 - i,
    {
        if digest[i] != sig[i] {
            return false;
        }
        i += 1;
    }
    assert(digest@ =~= sig@);
    true
}

impl Blake3 {
    /// A keyed hash with exactly this key.
    pub fn new(key: [u8; 32]) -> (signer: Self)
        ensures
            signer@ == key@,
    {
        Blake3 { key }
    }

    /// Takes the first 32 bytes of the blob as the key. Bytes after them are
    /// ignored; a shorter blob is refused.
    pub fn try_new(key: &[u8]) -> (r: Result<Self, TextError>)
        ensures
            match r {
                Ok(signer) => key@.len() >= 32 && signer@ == key@.subrange(0, 32),
                Err(e) => key@.len() < 32 && e == TextError::KeyFormat,
            },
    {
        if key.len() < 32 {
            return Err(TextError::KeyFormat);
        }
        Ok(Blake3::new(first_32(key)))
    }
}

impl Ed25519Signer {
    /// A signer with exactly these secret bytes.
    pub fn new(key: [u8; 32]) -> (signer: Self)
        ensures
            signer@ == key@,
    {
        Ed25519Signer { key }
    }

    /// Takes a blob of exactly 32 bytes as the secret key.
    pub fn try_new(key: &[u8]) -> (r: Result<Self, TextError>)
        ensures
            match r {
                Ok(signer) => key@.len() == 32 && signer@ == key@,
                Err(e) => key@.len() != 32 && e == TextError::KeyFormat,
            },
    {
        if key.len() != 32 {
            return Err(TextError::KeyFormat);
        }
        let bytes = first_32(key);
        assert(key@.subrange(0, 32) =~= key@);
        Ok(Ed25519Signer::new(bytes))
    }
}

impl Ed25519Verifier {
    #[verifier::type_invariant]
    spec fn holds_public_key(&self) -> bool {
        ed25519_is_public_key(self.key@)
    }

    /// A verifier with exactly these bytes, which must encode a public key.
    /// `try_new` tests that and is the way in for bytes of unknown origin.
    pub fn new(key: [u8; 32]) -> (verifier: Self)
        requires
            ed25519_is_public_key(key@),
        ensures
            verifier@ == key@,
    {
        Ed25519Verifier { key }
    }

    /// Takes a blob of exactly 32 bytes that encode a point of the curve as
    /// the public key.
    pub fn try_new(key: &[u8]) -> (r: Result<Self, TextError>)
        ensures
            match r {
                Ok(verifier) => is_public_blob(key@) && verifier@ == key@,
                Err(e) => !is_public_blob(key@) && e == TextError::KeyFormat,
            },
    {
        if key.len() != 32 {
            return Err(TextError::KeyFormat);
        }
        let bytes = first_32(key);
        assert(key@.subrange(0, 32) =~= key@);
        match ed25519_decode_public(&bytes) {
            Ok(_) => Ok(Ed25519Verifier::new(bytes)),
            Err(_) => Err(TextError::KeyFormat),
        }
    }
}

/// A blob that is accepted as a public key: 32 bytes that encode a point of
/// the curve.
pub open spec fn is_public_blob(blob: Seq<u8>) -> bool {
    blob.len() == 32 && ed25519_is_public_key(blob)
}

impl TextSign for Blake3 {
    open spec fn signature_spec(&self, message: Seq<u8>) -> Seq<u8> {
        blake3_keyed_hash(self@, message)@
    }

    open spec fn signature_len_spec() -> nat {
        32
    }

    fn sign(&self, message: &[u8]) -> (r: Result<Vec<u8>, TextError>) {
        let digest = keyed_hash(&self.key, message);
        Ok(slice_to_vec(digest.as_slice()))
    }
}

impl TextVerify for Blake3 {
    open spec fn verdict_spec(&self, message: Seq<u8>, sig: Seq<u8>) -> Result<bool, TextError> {
        Ok(sig == blake3_keyed_hash(self@, message)@)
    }

    fn verify(&self, message: &[u8], sig: &[u8]) -> (r: Result<bool, TextError>) {
        let digest = keyed_hash(&self.key, message);
        Ok(digest_matches(&digest, sig))
    }
}

impl TextSign for Ed25519Signer {
    open spec fn signature_spec(&self, message: Seq<u8>) -> Seq<u8> {
        ed25519_signature(self@, message)@
    }

    open spec fn signature_len_spec() -> nat {
        64
    }

    fn sign(&self, message: &[u8]) -> (r: Result<Vec<u8>, TextError>) {
        let sig = ed25519_sign(&self.key, message);
        Ok(slice_to_vec(sig.as_slice()))
    }
}

impl TextVerify for Ed25519Verifier {
    open spec fn verdict_spec(&self, message: Seq<u8>, sig: Seq<u8>) -> Result<bool, TextError> {
        if sig.len() != 64 {
            Err(TextError::Encoding)
        } else {
            Ok(ed25519_accepts(self@, message, sig))
        }
    }

    fn verify(&self, message: &[u8], sig: &[u8]) -> (r: Result<bool, TextError>) {
        proof {
            use_type_invariant(self);
        }
        match signature_bytes(sig) {
            Ok(raw) => Ok(ed25519_verify(&self.key, message, &raw)),
            Err(e) => Err(e),
        }
    }
}

impl KeyLoader for Blake3 {
    open spec fn key_bytes(&self) -> Seq<u8> {
        self@
    }

    open spec fn loadable(blob: Seq<u8>) -> bool {
        blob.len() >= 32
    }

    open spec fn loaded_bytes(blob: Seq<u8>) -> Seq<u8> {
        blob.subrange(0, 32)
    }

    fn load(blob: &[u8]) -> (r: Result<Self, TextError>) {
        Blake3::try_new(blob)
    }
}

impl KeyLoader for Ed25519Signer {
    open spec fn key_bytes(&self) -> Seq<u8> {
        self@
    }

    open spec fn loadable(blob: Seq<u8>) -> bool {
        blob.len() == 32
    }

    open spec fn loaded_bytes(blob: Seq<u8>) -> Seq<u8> {
        blob
    }

    fn load(blob: &[u8]) -> (r: Result<Self, TextError>) {
        Ed25519Signer::try_new(blob)
    }
}

impl KeyLoader for Ed25519Verifier {
    open spec fn key_bytes(&self) -> Seq<u8> {
        self@
    }

    open spec fn loadable(blob: Seq<u8>) -> bool {
        is_public_blob(blob)
    }

    open spec fn loaded_bytes(blob: Seq<u8>) -> Seq<u8> {
        blob
    }

    fn load(blob: &[u8]) -> (r: Result<Self, TextError>) {
        Ed25519Verifier::try_new(blob)
    }
}

/// The one blob of a generated symmetric key.
pub fn symmetric_key_blobs(secret: [u8; 32]) -> (keys: Vec<Vec<u8>>)
    ensures
        blobs(keys) == seq![secret@],
{
    let mut keys: Vec<Vec<u8>> = Vec::new();
    keys.push(slice_to_vec(secret.as_slice()));
    assert(blobs(keys) =~= seq![secret@]);
    keys
}

/// The two blobs of a generated key pair: the secret key, then the public
/// key that belongs to it.
pub fn key_pair_blobs(secret: [u8; 32]) -> (keys: Vec<Vec<u8>>)
    ensures
        blobs(keys) == seq![secret@, ed25519_public_of(secret@)@],
        is_public_blob(ed25519_public_of(secret@)@),
{
    let public = ed25519_derive_public(&secret);
    let mut keys: Vec<Vec<u8>> = Vec::new();
    keys.push(slice_to_vec(secret.as_slice()));
    keys.push(slice_to_vec(public.as_slice()));
    assert(blobs(keys) =~= seq![secret@, ed25519_public_of(secret@)@]);
    assert(ed25519_derived(ed25519_public_of(secret@)@));
    keys
}

impl KeyGenerator for Blake3 {
    open spec fn well_generated(keys: Seq<Seq<u8>>) -> bool {
        keys.len() == 1 && keys[0].len() == 32
    }

    fn generate() -> (r: Result<Vec<Vec<u8>>, TextError>) {
        let mut secret = [0u8; 32];
        match fill_from_os(&mut secret) {
            Ok(_) => Ok(symmetric_key_blobs(secret)),
            Err(_) => Err(TextError::Generation),
        }
    }
}

impl KeyGenerator for Ed25519Signer {
    open spec fn well_generated(keys: Seq<Seq<u8>>) -> bool {
        keys.len() == 2 && keys[0].len() == 32 && keys[1] == ed25519_public_of(keys[0])@
            && is_public_blob(keys[1])
    }

    fn generate() -> (r: Result<Vec<Vec<u8>>, TextError>) {
        let mut secret = [0u8; 32];
        match fill_from_os(&mut secret) {
            Ok(_) => Ok(key_pair_blobs(secret)),
            Err(_) => Err(TextError::Generation),
        }
    }
}

/// The raw signature owed for a message under the key held in a key blob.
pub open spec fn sign_spec(format: TextSignFormat, key: Seq<u8>, message: Seq<u8>) -> Result<
    Seq<u8>,
    TextError,
> {
    match format {
        TextSignFormat::Blake3 => if key.len() < 32 {
            Err(TextError::KeyFormat)
        } else {
            Ok(blake3_keyed_hash(key.subrange(0, 32), message)@)
        },
        TextSignFormat::Ed25519 => if key.len() != 32 {
            Err(TextError::KeyFormat)
        } else {
            Ok(ed25519_signature(key, message)@)
        },
    }
}

/// The outcome owed for a message, the key held in a key blob, and raw
/// signature bytes. The key is judged first, then the signature's length,
/// then the signature.
pub open spec fn verify_spec(
    format: TextSignFormat,
    key: Seq<u8>,
    message: Seq<u8>,
    sig: Seq<u8>,
) -> Result<bool, TextError> {
    match format {
        TextSignFormat::Blake3 => if key.len() < 32 {
            Err(TextError::KeyFormat)
        } else {
            Ok(sig == blake3_keyed_hash(key.subrange(0, 32), message)@)
        },
        TextSignFormat::Ed25519 => if !is_public_blob(key) {
            Err(TextError::KeyFormat)
        } else if sig.len() != 64 {
            Err(TextError::Encoding)
        } else {
            Ok(ed25519_accepts(key, message, sig))
        },
    }
}

/// The key with which signatures made under `key` are verified: the same key
/// for the keyed hash, the derived public key for the asymmetric scheme.
pub open spec fn verifying_key_spec(format: TextSignFormat, key: Seq<u8>) -> Seq<u8> {
    match format {
        TextSignFormat::Blake3 => key,
        TextSignFormat::Ed25519 => ed25519_public_of(key)@,
    }
}

/// The outcome owed for signature text: text that does not decode is an
/// encoding error, whatever the key; decoded bytes are judged as raw
/// signature bytes.
pub open spec fn verify_text_spec(
    format: TextSignFormat,
    key: Seq<u8>,
    message: Seq<u8>,
    decoded: Option<Seq<u8>>,
) -> Result<bool, TextError> {
    match decoded {
        None => Err(TextError::Encoding),
        Some(sig) => verify_spec(format, key, message, sig),
    }
}

/// The length of a raw signature, fixed for each scheme.
pub open spec fn signature_len(format: TextSignFormat) -> nat {
    match format {
        TextSignFormat::Blake3 => 32,
        TextSignFormat::Ed25519 => 64,
    }
}

/// What holds of every set of key blobs generated for a format.
pub open spec fn generated_spec(format: TextSignFormat, keys: Seq<Seq<u8>>) -> bool {
    match format {
        TextSignFormat::Blake3 => keys.len() == 1 && keys[0].len() == 32,
        TextSignFormat::Ed25519 => keys.len() == 2 && keys[0].len() == 32 && keys[1]
            == ed25519_public_of(keys[0])@ && is_public_blob(keys[1]),
    }
}

/// Signs a message with the key held in a key blob and gives the raw
/// signature bytes: 32 for the keyed hash, 64 for the asymmetric scheme.
pub fn sign_message(message: &[u8], key: &[u8], format: TextSignFormat) -> (r: Result<
    Vec<u8>,
    TextError,
>)
    ensures
        match r {
            Ok(sig) => sign_spec(format, key@, message@) == Ok::<Seq<u8>, TextError>(sig@)
                && sig@.len() == signature_len(format),
            Err(e) => sign_spec(format, key@, message@) == Err::<Seq<u8>, TextError>(e),
        },
{
    match format {
        TextSignFormat::Blake3 => {
            let signer = Blake3::load(key)?;
            signer.sign(message)
        },
        TextSignFormat::Ed25519 => {
            let signer = Ed25519Signer::load(key)?;
            signer.sign(message)
        },
    }
}

/// Judges raw signature bytes against a message with the key held in a key
/// blob.
pub fn verify_signature(message: &[u8], key: &[u8], format: TextSignFormat, sig: &[u8]) -> (r:
    Result<bool, TextError>)
    ensures
        r == verify_spec(format, key@, message@, sig@),
{
    match format {
        TextSignFormat::Blake3 => {
            let verifier = Blake3::load(key)?;
            verifier.verify(message, sig)
        },
        TextSignFormat::Ed25519 => {
            let verifier = Ed25519Verifier::load(key)?;
            verifier.verify(message, sig)
        },
    }
}

/// Judges a signature that has come out of the base64 decoder, or the
/// decoder's refusal.
pub fn verify_decoded(
    message: &[u8],
    key: &[u8],
    format: TextSignFormat,
    decoded: Option<Vec<u8>>,
) -> (r: Result<bool, TextError>)
    ensures
        r == verify_text_spec(
            format,
            key@,
            message@,
            match decoded {
                Some(sig) => Some(sig@),
                None => None,
            },
        ),
{
    match decoded {
        Some(sig) => verify_signature(message, key, format, sig.as_slice()),
        None => Err(TextError::Encoding),
    }
}

/// Signs a message with the key held in a key blob and gives the signature
/// as url-safe base64 text without padding. Decoding that text gives the raw
/// signature back.
pub fn process_text_sign(message: &[u8], key: &[u8], format: TextSignFormat) -> (r: Result<
    String,
    TextError,
>)
    ensures
        match r {
            Ok(text) => match sign_spec(format, key@, message@) {
                Ok(sig) => text@ == base64_encoded(true, sig) && base64_decoded(true, text@)
                    == Some(sig),
                Err(_) => false,
            },
            Err(e) => sign_spec(format, key@, message@) == Err::<Seq<u8>, TextError>(e),
        },
{
    let signed = sign_message(message, key, format)?;
    Ok(encode_url_safe(signed.as_slice()))
}

/// Decodes signature text and judges it against a message with the key held
/// in a key blob. Text that is no url-safe base64 is an encoding error, never
/// the verdict `false`.
pub fn process_text_verify(message: &[u8], key: &[u8], format: TextSignFormat, sig: &str) -> (r:
    Result<bool, TextError>)
    ensures
        r == verify_text_spec(format, key@, message@, base64_decoded(true, sig@)),
        !is_url_safe_text(sig@) ==> r == Err::<bool, TextError>(TextError::Encoding),
{
    let decoded = match decode_url_safe(sig) {
        Ok(raw) => Some(raw),
        Err(_) => None,
    };
    verify_decoded(message, key, format, decoded)
}

/// Generates fresh key material: one blob for the keyed hash; for the
/// asymmetric scheme the secret key and then its public key.
pub fn process_text_generate(format: TextSignFormat) -> (r: Result<Vec<Vec<u8>>, TextError>)
    ensures
        match r {
            Ok(keys) => generated_spec(format, blobs(keys)),
            Err(e) => e == TextError::Generation,
        },
{
    match format {
        TextSignFormat::Blake3 => Blake3::generate(),
        TextSignFormat::Ed25519 => Ed25519Signer::generate(),
    }
}

/// Round trip: under either scheme, the signature made for a message with a
/// valid signing key is accepted for that message under the matching
/// verifying key.
pub proof fn lemma_sign_then_verify(
    format: TextSignFormat,
    signing_key: Seq<u8>,
    verifying_key: Seq<u8>,
    message: Seq<u8>,
)
    requires
        sign_spec(format, signing_key, message) is Ok,
        verifying_key == verifying_key_spec(format, signing_key),
    ensures
        verify_spec(
            format,
            verifying_key,
            message,
            sign_spec(format, signing_key, message)->Ok_0,
        ) == Ok::<bool, TextError>(true),
{
    match format {
        TextSignFormat::Blake3 => {},
        TextSignFormat::Ed25519 => {
            assert(ed25519_derived(verifying_key));
            assert(ed25519_signed_by_owner(
                verifying_key,
                message,
                ed25519_signature(signing_key, message)@,
            ));
        },
    }
}

/// Round trip through text: signature text that decodes to the signature
/// made for a message is judged `true` for that message under the matching
/// verifying key.
pub proof fn lemma_signed_text_verifies(
    format: TextSignFormat,
    signing_key: Seq<u8>,
    verifying_key: Seq<u8>,
    message: Seq<u8>,
    text: Seq<char>,
)
    requires
        sign_spec(format, signing_key, message) is Ok,
        verifying_key == verifying_key_spec(format, signing_key),
        base64_decoded(true, text) == Some(sign_spec(format, signing_key, message)->Ok_0),
    ensures
        verify_text_spec(format, verifying_key, message, base64_decoded(true, text)) == Ok::<
            bool,
            TextError,
        >(true),
{
    lemma_sign_then_verify(format, signing_key, verifying_key, message);
}

/// Tampering with a keyed-hash signature: any signature bytes other than the
/// ones that signing gives are judged `false`, and never an error.
pub proof fn lemma_keyed_hash_rejects_other_signature(
    key: Seq<u8>,
    message: Seq<u8>,
    sig: Seq<u8>,
)
    requires
        key.len() >= 32,
        Ok::<Seq<u8>, TextError>(sig) != sign_spec(TextSignFormat::Blake3, key, message),
    ensures
        verify_spec(TextSignFormat::Blake3, key, message, sig) == Ok::<bool, TextError>(false),
{
}

/// Tampering with a message under the keyed hash: a message whose digest
/// differs from that of the signed message is judged `false` against the
/// signature, and never an error.
pub proof fn lemma_keyed_hash_rejects_other_message(
    key: Seq<u8>,
    message: Seq<u8>,
    other: Seq<u8>,
)
    requires
        key.len() >= 32,
        sign_spec(TextSignFormat::Blake3, key, other) != sign_spec(
            TextSignFormat::Blake3,
            key,
            message,
        ),
    ensures
        verify_spec(
            TextSignFormat::Blake3,
            key,
            other,
            sign_spec(TextSignFormat::Blake3, key, message)->Ok_0,
        ) == Ok::<bool, TextError>(false),
{
}

/// Key length: a blob of fewer than 32 bytes is refused as a key of either
/// scheme, for signing and for verifying, whatever the message and the
/// signature; a blob of exactly 32 bytes is a signing key of either scheme
/// and a verifying key of the keyed hash.
pub proof fn lemma_key_length_enforced(
    format: TextSignFormat,
    key: Seq<u8>,
    message: Seq<u8>,
    sig: Seq<u8>,
)
    ensures
        key.len() < 32 ==> sign_spec(format, key, message) == Err::<Seq<u8>, TextError>(
            TextError::KeyFormat,
        ),
        key.len() < 32 ==> verify_spec(format, key, message, sig) == Err::<bool, TextError>(
            TextError::KeyFormat,
        ),
        key.len() == 32 ==> sign_spec(format, key, message) is Ok,
        key.len() == 32 ==> verify_spec(TextSignFormat::Blake3, key, message, sig) is Ok,
{
}

} // verus!

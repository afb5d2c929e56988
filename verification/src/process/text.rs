//! Signing and checking content under one of two schemes: a keyed BLAKE3
//! hash with a shared secret, or an Ed25519 signature. Signatures travel as
//! URL-safe base64 text without padding. The hashing and the curve
//! arithmetic are the `blake3` and `ed25519-dalek` crates'; the validation
//! of keys and signatures and the order of the steps are proved here.

use crate::cli::text::TextSignFormat;
use crate::process::b64::{
    unpadded_len, url_safe_bytes, url_safe_decode, url_safe_encode, url_safe_text,
};
use crate::process::gen_pass::{is_password, password_bytes};
use crate::process::random::{RandomSource, SystemRandom};
use crate::utils::ascii_text;
use ed25519_dalek::{Signer, Verifier};
use vstd::prelude::*;
use vstd::slice::slice_to_vec;

verus! {

/// Why signing or checking was refused. A signature that does not match is
/// no error: checking then answers `Ok(false)`.
#[derive(Clone, Copy, Debug, PartialEq, Eq, Structural)]
pub enum TextError {
    /// The content or the key is absent or cannot be read. Signing and
    /// checking are handed bytes and never answer this; `loaded` does, for
    /// a front end that reads the sources.
    InputError,
    /// The key bytes are too few, too many, or not a key of the scheme.
    KeyError,
    /// The signature text is not URL-safe base64 without padding.
    EncodingError,
    /// The decoded signature has not the length that the scheme fixes.
    SignatureLengthError,
}

/// What to tell the user of each refusal.
pub open spec fn error_text(error: TextError) -> Seq<char> {
    match error {
        TextError::InputError => "the input cannot be read"@,
        TextError::KeyError => "the key is not a key of this format"@,
        TextError::EncodingError => "the signature is not URL-safe base64 without padding"@,
        TextError::SignatureLengthError => "the signature has not the length of this format"@,
    }
}

impl TextError {
    /// What to tell the user.
    pub fn message(self) -> (text: &'static str)
        ensures
            text@ == error_text(self),
    {
        match self {
            TextError::InputError => "the input cannot be read",
            TextError::KeyError => "the key is not a key of this format",
            TextError::EncodingError => "the signature is not URL-safe base64 without padding",
            TextError::SignatureLengthError => "the signature has not the length of this format",
        }
    }
}

/// Bytes in a key of either scheme.
pub const KEY_LEN: usize = 32;

/// Bytes in a keyed-hash signature.
pub const MAC_LEN: usize = 32;

/// Bytes in an Ed25519 signature.
pub const ED25519_SIGNATURE_LEN: usize = 64;

/// The keyed BLAKE3 hash of `content` under the 32-byte `key`: what
/// `blake3::keyed_hash` returns.
pub uninterp spec fn blake3_keyed_hash(key: Seq<u8>, content: Seq<u8>) -> Seq<u8>;

/// The Ed25519 public key that belongs to the 32-byte `secret`: what
/// `SigningKey::verifying_key` of `ed25519-dalek` returns.
pub uninterp spec fn ed25519_public_key(secret: Seq<u8>) -> Seq<u8>;

/// The Ed25519 signature of `content` under the 32-byte `secret`: what
/// `Signer::sign` returns on a `SigningKey` of `ed25519-dalek`.
pub uninterp spec fn ed25519_signature(secret: Seq<u8>, content: Seq<u8>) -> Seq<u8>;

/// Whether 32 bytes are the encoding of a point of the curve, and so a
/// public key: whether `VerifyingKey::from_bytes` of `ed25519-dalek` takes
/// them.
pub uninterp spec fn ed25519_key_valid(public: Seq<u8>) -> bool;

/// Whether the 64-byte `signature` is accepted for `content` under the
/// public key `public`: whether `Verifier::verify` returns `Ok` on a
/// `VerifyingKey` of `ed25519-dalek`.
pub uninterp spec fn ed25519_accepts(public: Seq<u8>, content: Seq<u8>, signature: Seq<u8>) -> bool;

/// Whether `public` is a public key, 32 bytes that encode a point of the
/// curve, under which `signature` is accepted for `content`.
pub open spec fn ed25519_verifies(public: Seq<u8>, content: Seq<u8>, signature: Seq<u8>) -> bool {
    public.len() == 32 && ed25519_key_valid(public) && ed25519_accepts(public, content, signature)
}

/// `blake3::keyed_hash`. Trusted: the 32 bytes of the hash are named
/// `blake3_keyed_hash` of the key and the content.
#[verifier::external_body]
fn keyed_hash(key: &[u8; 32], content: &[u8]) -> (digest: [u8; 32])
    ensures
        digest@ == blake3_keyed_hash(key@, content@),
{
    *blake3::keyed_hash(key, content).as_bytes()
}

/// Equality of two `blake3::Hash` values, which that crate computes in
/// constant time. Trusted: it is true exactly when the bytes are equal.
#[verifier::external_body]
fn same_digest(a: &[u8; 32], b: &[u8; 32]) -> (same: bool)
    ensures
        same == (a@ == b@),
{
    blake3::Hash::from_bytes(*a) == blake3::Hash::from_bytes(*b)
}

/// `Signer::sign` on an `ed25519_dalek::SigningKey` made of `secret`.
/// Trusted: the 64 bytes are named `ed25519_signature`, and the signature is
/// accepted for the same content under the public key of `secret`, which is
/// 32 bytes and a valid key.
#[verifier::external_body]
fn ed25519_sign(secret: &[u8; 32], content: &[u8]) -> (signature: [u8; 64])
    ensures
        signature@ == ed25519_signature(secret@, content@),
        ed25519_verifies(ed25519_public_key(secret@), content@, signature@),
{
    ed25519_dalek::SigningKey::from_bytes(secret).sign(content).to_bytes()
}

/// `SigningKey::verifying_key` on an `ed25519_dalek::SigningKey` made of
/// `secret`. Trusted: the 32 bytes are named `ed25519_public_key`, and they
/// are a valid public key.
#[verifier::external_body]
fn ed25519_public(secret: &[u8; 32]) -> (public: [u8; 32])
    ensures
        public@ == ed25519_public_key(secret@),
        ed25519_key_valid(public@),
{
    ed25519_dalek::SigningKey::from_bytes(secret).verifying_key().to_bytes()
}

/// Whether `ed25519_dalek::VerifyingKey::from_bytes` takes the bytes.
/// Trusted: the answer is named `ed25519_key_valid`.
#[verifier::external_body]
fn ed25519_key_check(public: &[u8; 32]) -> (valid: bool)
    ensures
        valid == ed25519_key_valid(public@),
{
    ed25519_dalek::VerifyingKey::from_bytes(public).is_ok()
}

/// `Verifier::verify` on an `ed25519_dalek::VerifyingKey` made of `public`.
/// Trusted: the answer is named `ed25519_accepts`. A signature whose
/// 64 bytes are malformed inside is not accepted; that is no error.
#[verifier::external_body]
fn ed25519_verify(public: &[u8; 32], content: &[u8], signature: &[u8; 64]) -> (accepted: bool)
    requires
        ed25519_key_valid(public@),
    ensures
        accepted == ed25519_accepts(public@, content@, signature@),
{
    match ed25519_dalek::VerifyingKey::from_bytes(public) {
        Ok(key) => key.verify(content, &ed25519_dalek::Signature::from_bytes(signature)).is_ok(),
        Err(_) => false,
    }
}

/// The first 32 bytes of `bytes`, as a key.
fn key_array(bytes: &[u8]) -> (key: [u8; 32])
    requires
        bytes@.len() >= 32,
    ensures
        key@ == bytes@.take(32),
{
    let mut key = [0u8; 32];
    let mut i: usize = 0;
    while i < 32
        invariant
            i <= 32,
            bytes@.len() >= 32,
            forall|j: int| 0 <= j < i ==> key@[j] == bytes@[j],
        decreases 32 - i,
    {
        key[i] = bytes[i];
        i += 1;
    }
    proof {
        assert(key@ =~= bytes@.take(32));
    }
    key
}

/// Length in bytes of a raw signature of the scheme.
pub open spec fn signature_len(format: TextSignFormat) -> nat {
    match format {
        TextSignFormat::Blake3 => 32,
        TextSignFormat::Ed22519 => 64,
    }
}

/// What checking a keyed hash answers once the expected hash is known: a
/// signature of another length is refused, any other is compared in full.
pub open spec fn mac_verdict(expected: Seq<u8>, signature: Seq<u8>) -> Result<bool, TextError> {
    if signature.len() != 32 {
        Err(TextError::SignatureLengthError)
    } else {
        Ok(signature == expected)
    }
}

/// What checking an Ed25519 signature answers: a signature of another
/// length than 64 is refused, any other is accepted or not.
pub open spec fn ed25519_verdict(public: Seq<u8>, content: Seq<u8>, signature: Seq<u8>) -> Result<
    bool,
    TextError,
> {
    if signature.len() != 64 {
        Err(TextError::SignatureLengthError)
    } else {
        Ok(ed25519_accepts(public, content, signature))
    }
}

/// The keys that sign under the scheme: 32 bytes or more for the keyed
/// hash, of which the first 32 count; 32 bytes for a secret key.
pub open spec fn signing_key_accepted(format: TextSignFormat, key: Seq<u8>) -> bool {
    match format {
        TextSignFormat::Blake3 => key.len() >= 32,
        TextSignFormat::Ed22519 => key.len() == 32,
    }
}

/// The keys that check under the scheme: 32 bytes or more for the keyed
/// hash, of which the first 32 count; 32 bytes that encode a point of the
/// curve for a public key.
pub open spec fn verifying_key_accepted(format: TextSignFormat, key: Seq<u8>) -> bool {
    match format {
        TextSignFormat::Blake3 => key.len() >= 32,
        TextSignFormat::Ed22519 => key.len() == 32 && ed25519_key_valid(key),
    }
}

/// The raw signature of `content` under a key that signs.
pub open spec fn raw_signature(format: TextSignFormat, key: Seq<u8>, content: Seq<u8>) -> Seq<u8> {
    match format {
        TextSignFormat::Blake3 => blake3_keyed_hash(key.take(32), content),
        TextSignFormat::Ed22519 => ed25519_signature(key, content),
    }
}

/// What holds of the text that signing `content` under `key` returns: it is
/// the encoding of the raw signature, which has the length that the scheme
/// fixes; it decodes back to that signature; and under Ed25519 the
/// signature is accepted for `content` by the public key of `key`.
pub open spec fn signs(
    format: TextSignFormat,
    key: Seq<u8>,
    content: Seq<u8>,
    text: Seq<char>,
) -> bool {
    let signature = raw_signature(format, key, content);
    &&& signature.len() == signature_len(format)
    &&& text == url_safe_text(signature)
    &&& text.len() == unpadded_len(signature_len(format))
    &&& url_safe_bytes(text) == Some(signature)
    &&& format == TextSignFormat::Ed22519 ==> ed25519_verifies(
        ed25519_public_key(key),
        content,
        signature,
    )
}

/// What checking `text` against `content` under `key` answers. The key is
/// looked at first, then the text is decoded, then the length of the
/// signature is checked, and only then the scheme is asked.
pub open spec fn verify_outcome(
    format: TextSignFormat,
    key: Seq<u8>,
    content: Seq<u8>,
    text: Seq<char>,
) -> Result<bool, TextError> {
    if !verifying_key_accepted(format, key) {
        Err(TextError::KeyError)
    } else {
        match url_safe_bytes(text) {
            None => Err(TextError::EncodingError),
            Some(signature) => match format {
                TextSignFormat::Blake3 => mac_verdict(
                    blake3_keyed_hash(key.take(32), content),
                    signature,
                ),
                TextSignFormat::Ed22519 => ed25519_verdict(key, content, signature),
            },
        }
    }
}

/// What holds of freshly generated keys: one secret of 32 password
/// characters for the keyed hash; for Ed25519 a secret key of 32 bytes and
/// then its public key.
pub open spec fn generated(format: TextSignFormat, keys: Seq<Vec<u8>>) -> bool {
    match format {
        TextSignFormat::Blake3 => {
            &&& keys.len() == 1
            &&& keys[0]@.len() == 32
            &&& is_password(ascii_text(keys[0]@), 32, true, true, true, true)
        },
        TextSignFormat::Ed22519 => {
            &&& keys.len() == 2
            &&& keys[0]@.len() == 32
            &&& keys[1]@ == ed25519_public_key(keys[0]@)
            &&& verifying_key_accepted(TextSignFormat::Ed22519, keys[1]@)
        },
    }
}

/// Compares a signature with the hash that was expected. The length is
/// checked first.
pub fn check_mac(expected: &[u8; 32], signature: &[u8]) -> (verdict: Result<bool, TextError>)
    ensures
        verdict == mac_verdict(expected@, signature@),
{
    if signature.len() != MAC_LEN {
        return Err(TextError::SignatureLengthError);
    }
    let given = key_array(signature);
    proof {
        assert(signature@.take(32) =~= signature@);
    }
    Ok(same_digest(expected, &given))
}

/// The 64 bytes of an Ed25519 signature, or the refusal of any other length.
pub fn signature_array(signature: &[u8]) -> (raw: Result<[u8; 64], TextError>)
    ensures
        match raw {
            Ok(bytes) => signature@.len() == 64 && bytes@ == signature@,
            Err(e) => signature@.len() != 64 && e == TextError::SignatureLengthError,
        },
{
    if signature.len() != ED25519_SIGNATURE_LEN {
        return Err(TextError::SignatureLengthError);
    }
    let mut raw = [0u8; 64];
    let mut i: usize = 0;
    while i < 64
        invariant
            i <= 64,
            signature@.len() == 64,
            forall|j: int| 0 <= j < i ==> raw@[j] == signature@[j],
        decreases 64 - i,
    {
        raw[i] = signature[i];
        i += 1;
    }
    proof {
        assert(raw@ =~= signature@);
    }
    Ok(raw)
}

/// A shared secret for the keyed hash.
pub struct Blake3 {
    key: [u8; 32],
}

impl View for Blake3 {
    type V = Seq<u8>;

    /// The 32 bytes of the secret.
    closed spec fn view(&self) -> Seq<u8> {
        self.key@
    }
}

impl Blake3 {
    pub fn new(key: [u8; 32]) -> (signer: Self)
        ensures
            signer@ == key@,
    {
        Self { key }
    }

    /// Takes the first 32 bytes of `key` as the secret. Fewer bytes are no
    /// key.
    pub fn try_new(key: &[u8]) -> (loaded: Result<Self, TextError>)
        ensures
            match loaded {
                Ok(signer) => key@.len() >= 32 && signer@ == key@.take(32),
                Err(e) => key@.len() < 32 && e == TextError::KeyError,
            },
    {
        if key.len() < KEY_LEN {
            return Err(TextError::KeyError);
        }
        Ok(Blake3::new(key_array(key)))
    }

    /// The keyed hash of the whole content: 32 bytes, the same for the same
    /// key and content.
    pub fn sign(&self, content: &[u8]) -> (signature: Vec<u8>)
        ensures
            signature@ == blake3_keyed_hash(self@, content@),
            signature@.len() == 32,
    {
        let digest = keyed_hash(&self.key, content);
        slice_to_vec(digest.as_slice())
    }

    /// Hashes the content again and compares. A signature that is not 32
    /// bytes long is refused before anything is hashed.
    pub fn verify(&self, content: &[u8], signature: &[u8]) -> (verified: Result<bool, TextError>)
        ensures
            verified == mac_verdict(blake3_keyed_hash(self@, content@), signature@),
    {
        if signature.len() != MAC_LEN {
            return Err(TextError::SignatureLengthError);
        }
        let expected = keyed_hash(&self.key, content);
        check_mac(&expected, signature)
    }

    /// A fresh secret: the 32 bytes of a random password over all four
    /// classes of characters, drawn from `source`.
    pub fn generate_with<R: RandomSource>(source: &mut R) -> (keys: Vec<Vec<u8>>)
        ensures
            generated(TextSignFormat::Blake3, keys@),
    {
        let key = password_bytes(source, 32, true, true, true, true);
        vec![key]
    }

    /// A fresh secret from the system's random source.
    pub fn generate() -> (keys: Vec<Vec<u8>>)
        ensures
            generated(TextSignFormat::Blake3, keys@),
    {
        let mut source = SystemRandom;
        Blake3::generate_with(&mut source)
    }
}

/// An Ed25519 secret key.
pub struct Ed22519Signer {
    key: [u8; 32],
}

impl View for Ed22519Signer {
    type V = Seq<u8>;

    /// The 32 bytes of the secret key.
    closed spec fn view(&self) -> Seq<u8> {
        self.key@
    }
}

impl Ed22519Signer {
    pub fn new(key: [u8; 32]) -> (signer: Self)
        ensures
            signer@ == key@,
    {
        Self { key }
    }

    /// Takes `key` as the secret key. It must be 32 bytes, no more and no
    /// fewer.
    pub fn try_new(key: &[u8]) -> (loaded: Result<Self, TextError>)
        ensures
            match loaded {
                Ok(signer) => key@.len() == 32 && signer@ == key@,
                Err(e) => key@.len() != 32 && e == TextError::KeyError,
            },
    {
        if key.len() != KEY_LEN {
            return Err(TextError::KeyError);
        }
        proof {
            assert(key@.take(32) =~= key@);
        }
        Ok(Ed22519Signer::new(key_array(key)))
    }

    /// The signature of the whole content: 64 bytes, the same for the same
    /// key and content, and accepted under the public key of this secret.
    pub fn sign(&self, content: &[u8]) -> (signature: Vec<u8>)
        ensures
            signature@ == ed25519_signature(self@, content@),
            signature@.len() == 64,
            ed25519_verifies(ed25519_public_key(self@), content@, signature@),
    {
        let raw = ed25519_sign(&self.key, content);
        slice_to_vec(raw.as_slice())
    }

    /// The public key that checks what this key signs.
    pub fn public_key(&self) -> (public: [u8; 32])
        ensures
            public@ == ed25519_public_key(self@),
            ed25519_key_valid(public@),
    {
        ed25519_public(&self.key)
    }

    /// The secret key and its public key, in this order.
    pub fn keypair(&self) -> (keys: Vec<Vec<u8>>)
        ensures
            generated(TextSignFormat::Ed22519, keys@),
            keys@[0]@ == self@,
    {
        let public = self.public_key();
        let secret_bytes = slice_to_vec(self.key.as_slice());
        let public_bytes = slice_to_vec(public.as_slice());
        vec![secret_bytes, public_bytes]
    }

    /// A fresh pair of keys, the secret key drawn from `source`: the secret
    /// key, then its public key.
    pub fn generate_with<R: RandomSource>(source: &mut R) -> (keys: Vec<Vec<u8>>)
        ensures
            generated(TextSignFormat::Ed22519, keys@),
    {
        Ed22519Signer::new(source.secret()).keypair()
    }

    /// A fresh pair of keys from the system's random source.
    pub fn generate() -> (keys: Vec<Vec<u8>>)
        ensures
            generated(TextSignFormat::Ed22519, keys@),
    {
        let mut source = SystemRandom;
        Ed22519Signer::generate_with(&mut source)
    }
}

/// An Ed25519 public key. Its bytes are always a point of the curve.
pub struct Ed22519Verifier {
    key: [u8; 32],
}

impl View for Ed22519Verifier {
    type V = Seq<u8>;

    /// The 32 bytes of the public key.
    closed spec fn view(&self) -> Seq<u8> {
        self.key@
    }
}

impl Ed22519Verifier {
    #[verifier::type_invariant]
    spec fn is_point(self) -> bool {
        ed25519_key_valid(self.key@)
    }

    pub fn new(key: [u8; 32]) -> (verifier: Self)
        requires
            ed25519_key_valid(key@),
        ensures
            verifier@ == key@,
    {
        Self { key }
    }

    /// Takes `key` as the public key. It must be 32 bytes, no more and no
    /// fewer, and encode a point of the curve.
    pub fn try_new(key: &[u8]) -> (loaded: Result<Self, TextError>)
        ensures
            match loaded {
                Ok(verifier) => key@.len() == 32 && ed25519_key_valid(key@) && verifier@ == key@,
                Err(e) => !(key@.len() == 32 && ed25519_key_valid(key@)) && e
                    == TextError::KeyError,
            },
    {
        if key.len() != KEY_LEN {
            return Err(TextError::KeyError);
        }
        proof {
            assert(key@.take(32) =~= key@);
        }
        let bytes = key_array(key);
        if !ed25519_key_check(&bytes) {
            return Err(TextError::KeyError);
        }
        Ok(Ed22519Verifier::new(bytes))
    }

    /// Checks the signature against the content. A signature that is not 64
    /// bytes long is refused before the curve is asked; one that is 64
    /// bytes but malformed inside is not accepted, which is no error.
    pub fn verify(&self, content: &[u8], signature: &[u8]) -> (verified: Result<bool, TextError>)
        ensures
            verified == ed25519_verdict(self@, content@, signature@),
    {
        proof {
            use_type_invariant(self);
        }
        let raw = signature_array(signature)?;
        Ok(ed25519_verify(&self.key, content, &raw))
    }
}

/// What reading the content or a key came to: the bytes, or the refusal of
/// a source that is absent or cannot be read.
pub fn loaded(source: Option<Vec<u8>>) -> (bytes: Result<Vec<u8>, TextError>)
    ensures
        match bytes {
            Ok(found) => source == Some(found),
            Err(e) => source is None && e == TextError::InputError,
        },
{
    match source {
        Some(found) => Ok(found),
        None => Err(TextError::InputError),
    }
}

/// What decoding a signature text came to: the raw signature, or the
/// refusal of a text that is no URL-safe base64.
pub fn decoded_signature(decoded: Result<Vec<u8>, base64::DecodeError>) -> (signature: Result<
    Vec<u8>,
    TextError,
>)
    ensures
        match signature {
            Ok(bytes) => decoded matches Ok(given) && bytes == given,
            Err(e) => decoded is Err && e == TextError::EncodingError,
        },
{
    match decoded {
        Ok(bytes) => Ok(bytes),
        Err(_) => Err(TextError::EncodingError),
    }
}

/// Signs `content` with the key in `key` and returns the signature as
/// URL-safe base64 text without padding: 43 characters for the keyed hash,
/// 86 for Ed25519. Bytes that are no signing key of the scheme are refused.
pub fn process_text_sign(content: &[u8], key: &[u8], format: TextSignFormat) -> (signed: Result<
    String,
    TextError,
>)
    ensures
        match signed {
            Ok(text) => signing_key_accepted(format, key@) && signs(format, key@, content@, text@),
            Err(e) => !signing_key_accepted(format, key@) && e == TextError::KeyError,
        },
{
    let signature = match format {
        TextSignFormat::Blake3 => {
            let signer = Blake3::try_new(key)?;
            signer.sign(content)
        },
        TextSignFormat::Ed22519 => {
            let signer = Ed22519Signer::try_new(key)?;
            signer.sign(content)
        },
    };
    Ok(url_safe_encode(signature.as_slice()))
}

/// Checks the signature text `sig` against `content` with the key in
/// `key`. A signature that does not match gives `Ok(false)`. Refused are,
/// in this order: bytes that are no checking key of the scheme, a text that
/// is no URL-safe base64, and a signature of another length than the
/// scheme's.
pub fn process_text_verify(
    content: &[u8],
    key: &[u8],
    sig: &str,
    format: TextSignFormat,
) -> (verified: Result<bool, TextError>)
    ensures
        verified == verify_outcome(format, key@, content@, sig@),
{
    match format {
        TextSignFormat::Blake3 => {
            let verifier = Blake3::try_new(key)?;
            let signature = decoded_signature(url_safe_decode(sig))?;
            verifier.verify(content, signature.as_slice())
        },
        TextSignFormat::Ed22519 => {
            let verifier = Ed22519Verifier::try_new(key)?;
            let signature = decoded_signature(url_safe_decode(sig))?;
            verifier.verify(content, signature.as_slice())
        },
    }
}

/// Fresh keys for the scheme, drawn from `source`: one secret for the keyed
/// hash; for Ed25519 the secret key and then its public key.
pub fn process_text_keygen_with<R: RandomSource>(
    format: TextSignFormat,
    source: &mut R,
) -> (keys: Vec<Vec<u8>>)
    ensures
        generated(format, keys@),
{
    match format {
        TextSignFormat::Blake3 => Blake3::generate_with(source),
        TextSignFormat::Ed22519 => Ed22519Signer::generate_with(source),
    }
}

/// Fresh keys for the scheme from the system's random source: one secret
/// for the keyed hash; for Ed25519 the secret key and then its public key.
pub fn process_text_keygen(format: TextSignFormat) -> (keys: Vec<Vec<u8>>)
    ensures
        generated(format, keys@),
{
    let mut source = SystemRandom;
    process_text_keygen_with(format, &mut source)
}

/// Keys that were generated for a scheme are keys of that scheme: the
/// secret signs; the secret of the keyed hash checks too, and so does the
/// public key of an Ed25519 pair.
pub proof fn lemma_generated_keys_accepted(format: TextSignFormat, keys: Seq<Vec<u8>>)
    requires
        generated(format, keys),
    ensures
        signing_key_accepted(format, keys[0]@),
        verifying_key_accepted(format, keys.last()@),
{
}

/// A signature made with the keyed hash checks against the same content
/// under the same key.
pub proof fn lemma_mac_round_trip(key: Seq<u8>, content: Seq<u8>, text: Seq<char>)
    requires
        signing_key_accepted(TextSignFormat::Blake3, key),
        signs(TextSignFormat::Blake3, key, content, text),
    ensures
        verify_outcome(TextSignFormat::Blake3, key, content, text) == Ok::<bool, TextError>(true),
{
}

/// What is signed with a freshly generated secret of the keyed hash checks
/// under that secret, whatever the content.
pub proof fn lemma_fresh_mac_round_trip(keys: Seq<Vec<u8>>, content: Seq<u8>, text: Seq<char>)
    requires
        generated(TextSignFormat::Blake3, keys),
        signs(TextSignFormat::Blake3, keys[0]@, content, text),
    ensures
        verify_outcome(TextSignFormat::Blake3, keys[0]@, content, text) == Ok::<bool, TextError>(
            true,
        ),
{
    lemma_mac_round_trip(keys[0]@, content, text);
}

/// A signature made with an Ed25519 secret key checks against the same
/// content under the public key of that secret key.
pub proof fn lemma_ed25519_round_trip(
    secret: Seq<u8>,
    public: Seq<u8>,
    content: Seq<u8>,
    text: Seq<char>,
)
    requires
        signing_key_accepted(TextSignFormat::Ed22519, secret),
        public == ed25519_public_key(secret),
        signs(TextSignFormat::Ed22519, secret, content, text),
    ensures
        verify_outcome(TextSignFormat::Ed22519, public, content, text) == Ok::<bool, TextError>(
            true,
        ),
{
}

/// What is signed with the secret key of a freshly generated pair checks
/// under the public key of the pair, whatever the content.
pub proof fn lemma_fresh_pair_round_trip(keys: Seq<Vec<u8>>, content: Seq<u8>, text: Seq<char>)
    requires
        generated(TextSignFormat::Ed22519, keys),
        signs(TextSignFormat::Ed22519, keys[0]@, content, text),
    ensures
        verify_outcome(TextSignFormat::Ed22519, keys[1]@, content, text) == Ok::<bool, TextError>(
            true,
        ),
{
    lemma_ed25519_round_trip(keys[0]@, keys[1]@, content, text);
}

/// Checking a signature made with the keyed hash against other content
/// fails wherever the two contents have not the same hash under the key.
pub proof fn lemma_mac_tamper_detected(
    key: Seq<u8>,
    content: Seq<u8>,
    other: Seq<u8>,
    text: Seq<char>,
)
    requires
        signing_key_accepted(TextSignFormat::Blake3, key),
        signs(TextSignFormat::Blake3, key, content, text),
        blake3_keyed_hash(key.take(32), other) != blake3_keyed_hash(key.take(32), content),
    ensures
        verify_outcome(TextSignFormat::Blake3, key, other, text) == Ok::<bool, TextError>(false),
{
}

/// Checking a signature made with the keyed hash under another key fails
/// wherever the content has not the same hash under the two keys.
pub proof fn lemma_mac_wrong_key_detected(
    key: Seq<u8>,
    other_key: Seq<u8>,
    content: Seq<u8>,
    text: Seq<char>,
)
    requires
        signing_key_accepted(TextSignFormat::Blake3, key),
        verifying_key_accepted(TextSignFormat::Blake3, other_key),
        signs(TextSignFormat::Blake3, key, content, text),
        blake3_keyed_hash(other_key.take(32), content) != blake3_keyed_hash(key.take(32), content),
    ensures
        verify_outcome(TextSignFormat::Blake3, other_key, content, text) == Ok::<bool, TextError>(
            false,
        ),
{
}

/// Checking an Ed25519 signature under any public key and against any
/// content answers what the curve answers for the raw signature: the text
/// adds nothing and hides nothing.
pub proof fn lemma_ed25519_verdict(
    secret: Seq<u8>,
    content: Seq<u8>,
    text: Seq<char>,
    public: Seq<u8>,
    other: Seq<u8>,
)
    requires
        signs(TextSignFormat::Ed22519, secret, content, text),
        verifying_key_accepted(TextSignFormat::Ed22519, public),
    ensures
        verify_outcome(TextSignFormat::Ed22519, public, other, text) == Ok::<bool, TextError>(
            ed25519_accepts(public, other, ed25519_signature(secret, content)),
        ),
{
}

/// Checking an Ed25519 signature against other content under the public key
/// of the secret that signed fails wherever the curve does not accept the
/// signature for that content.
pub proof fn lemma_ed25519_tamper_detected(
    secret: Seq<u8>,
    content: Seq<u8>,
    other: Seq<u8>,
    text: Seq<char>,
)
    requires
        signing_key_accepted(TextSignFormat::Ed22519, secret),
        signs(TextSignFormat::Ed22519, secret, content, text),
        !ed25519_accepts(ed25519_public_key(secret), other, ed25519_signature(secret, content)),
    ensures
        verify_outcome(TextSignFormat::Ed22519, ed25519_public_key(secret), other, text) == Ok::<
            bool,
            TextError,
        >(false),
{
    lemma_ed25519_verdict(secret, content, text, ed25519_public_key(secret), other);
}

/// Checking an Ed25519 signature under another public key fails wherever
/// the curve does not accept the signature under that key.
pub proof fn lemma_ed25519_wrong_key_detected(
    secret: Seq<u8>,
    other_public: Seq<u8>,
    content: Seq<u8>,
    text: Seq<char>,
)
    requires
        signs(TextSignFormat::Ed22519, secret, content, text),
        verifying_key_accepted(TextSignFormat::Ed22519, other_public),
        !ed25519_accepts(other_public, content, ed25519_signature(secret, content)),
    ensures
        verify_outcome(TextSignFormat::Ed22519, other_public, content, text) == Ok::<
            bool,
            TextError,
        >(false),
{
    lemma_ed25519_verdict(secret, content, text, other_public, content);
}

/// Signing the same content under the same key gives the same text.
pub proof fn lemma_sign_deterministic(
    format: TextSignFormat,
    key: Seq<u8>,
    content: Seq<u8>,
    first: Seq<char>,
    second: Seq<char>,
)
    requires
        signs(format, key, content, first),
        signs(format, key, content, second),
    ensures
        first == second,
{
}

/// Fewer than 32 bytes are a key of neither scheme, for signing or for
/// checking.
pub proof fn lemma_short_key_refused(
    format: TextSignFormat,
    key: Seq<u8>,
    content: Seq<u8>,
    text: Seq<char>,
)
    requires
        key.len() < 32,
    ensures
        !signing_key_accepted(format, key),
        !verifying_key_accepted(format, key),
        verify_outcome(format, key, content, text) == Err::<bool, TextError>(TextError::KeyError),
{
}

/// A text that decodes to a signature of another length than the scheme's
/// is refused, whatever the content and the key's bytes.
pub proof fn lemma_wrong_length_refused(
    format: TextSignFormat,
    key: Seq<u8>,
    content: Seq<u8>,
    text: Seq<char>,
)
    requires
        verifying_key_accepted(format, key),
        url_safe_bytes(text) matches Some(signature) && signature.len() != signature_len(format),
    ensures
        verify_outcome(format, key, content, text) == Err::<bool, TextError>(
            TextError::SignatureLengthError,
        ),
{
}

} // verus!

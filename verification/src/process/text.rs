//! Signing, verification, key generation and authenticated encryption of
//! byte content.

use vstd::prelude::*;

use crate::cli::text::TextSignFormat;
use crate::process::genpass::{genpass_bytes, is_password};
use crate::utils::bytes_equal;

verus! {

/// Length in bytes of every key this module accepts.
pub const KEY_LEN: usize = 32;

/// Length in bytes of a keyed-hash tag.
pub const TAG_LEN: usize = 32;

/// Length in bytes of an Ed25519 signature.
pub const SIGNATURE_LEN: usize = 64;

/// Length in bytes of the nonce that starts every envelope.
pub const NONCE_LEN: usize = 12;

/// Length in bytes of the authentication tag that ends every sealed message.
pub const SEAL_TAG_LEN: usize = 16;

/// Why an operation on text was refused.
#[derive(Debug, Clone, Copy, PartialEq, Eq, Structural)]
pub enum TextError {
    /// The key is not exactly 32 bytes long.
    InvalidKeyLength,
    /// The verifying key does not decode to a point of the curve.
    InvalidPublicKey,
    /// The signature does not have the length the scheme fixes.
    MalformedSignature,
    /// The envelope is too short, was altered, or was sealed under another key.
    DecryptionFailed,
    /// The content is longer than the cipher can seal.
    EncryptionFailed,
    /// The operating system handed out no random bytes.
    RandomSourceFailure,
    /// The content could not be read.
    IoFailure,
}

/// The keyed BLAKE3 hash of `content` under `key`, as `blake3::keyed_hash`
/// computes it.
pub uninterp spec fn blake3_keyed_hash(key: Seq<u8>, content: Seq<u8>) -> Seq<u8>;

/// Calls `blake3::keyed_hash` and copies the 32 bytes of the hash it returns.
/// Trusted: the result is the named hash of the two arguments, and it is
/// `blake3::OUT_LEN` (32) bytes long.
#[verifier::external_body]
fn keyed_hash(key: &[u8; 32], content: &[u8]) -> (tag: Vec<u8>)
    ensures
        tag@ == blake3_keyed_hash(key@, content@),
        tag@.len() == TAG_LEN,
{
    blake3::keyed_hash(key, content).as_bytes().to_vec()
}

/// Copies a slice of exactly `N` bytes into an array; refuses every other
/// length.
pub fn byte_array<const N: usize>(bytes: &[u8]) -> (r: Option<[u8; N]>)
    ensures
        r is Some <==> bytes@.len() == N,
        r matches Some(a) ==> a@ == bytes@,
{
    if bytes.len() != N {
        return None;
    }
    let mut a: [u8; N] = vstd::array::array_fill_for_copy_types(0u8);
    let mut i: usize = 0;
    while i < N
        invariant
            bytes@.len() == N,
            i <= N,
            forall|j: int| 0 <= j < i ==> a@[j] == bytes@[j],
        decreases N - i,
    {
        a[i] = bytes[i];
        i += 1;
    }
    assert(a@ =~= bytes@);
    Some(a)
}

/// The Ed25519 signature of `content` under the signing key `signing_key`,
/// as `ed25519_dalek::SigningKey` computes it: signing draws no randomness.
pub uninterp spec fn ed25519_signature(signing_key: Seq<u8>, content: Seq<u8>) -> Seq<u8>;

/// The verifying key that belongs to the signing key `signing_key`.
pub uninterp spec fn ed25519_public_key(signing_key: Seq<u8>) -> Seq<u8>;

/// Whether the 32 bytes `verifying_key` decode to a point of the curve.
pub uninterp spec fn ed25519_point_valid(verifying_key: Seq<u8>) -> bool;

/// Whether strict Ed25519 verification accepts the 64 bytes `signature` for
/// `content` under `verifying_key`.
pub uninterp spec fn ed25519_strict_valid(
    verifying_key: Seq<u8>,
    content: Seq<u8>,
    signature: Seq<u8>,
) -> bool;

/// Builds an `ed25519_dalek::SigningKey` from the key bytes and calls its
/// `Signer::sign`. Trusted: the result is the named signature of the two
/// arguments, and it is `Signature::BYTE_SIZE` (64) bytes long.
#[verifier::external_body]
fn ed25519_sign(signing_key: &[u8; 32], content: &[u8]) -> (signature: Vec<u8>)
    ensures
        signature@ == ed25519_signature(signing_key@, content@),
        signature@.len() == SIGNATURE_LEN,
{
    let key = ed25519_dalek::SigningKey::from_bytes(signing_key);
    ed25519_dalek::Signer::sign(&key, content).to_vec()
}

/// Builds an `ed25519_dalek::SigningKey` from the key bytes and calls its
/// `verifying_key`. Trusted: the result is the named verifying key of the
/// argument, 32 bytes long; being the encoding of a point of the curve, it
/// decodes to one.
#[verifier::external_body]
fn ed25519_derive_public(signing_key: &[u8; 32]) -> (verifying_key: Vec<u8>)
    ensures
        verifying_key@ == ed25519_public_key(signing_key@),
        verifying_key@.len() == KEY_LEN,
        ed25519_point_valid(verifying_key@),
{
    ed25519_dalek::SigningKey::from_bytes(signing_key).verifying_key().as_bytes().to_vec()
}

/// Calls `ed25519_dalek::VerifyingKey::from_bytes` and reports whether it
/// succeeded. Trusted: the result is the named validity of the argument.
#[verifier::external_body]
fn ed25519_check_point(verifying_key: &[u8; 32]) -> (valid: bool)
    ensures
        valid == ed25519_point_valid(verifying_key@),
{
    ed25519_dalek::VerifyingKey::from_bytes(verifying_key).is_ok()
}

/// Rebuilds the `ed25519_dalek::VerifyingKey` and calls its `verify_strict`
/// on the content and the signature. Trusted: the result is the named
/// verdict of the three arguments.
#[verifier::external_body]
fn ed25519_verify_strict(verifying_key: &[u8; 32], content: &[u8], signature: &[u8; 64]) -> (valid:
    bool)
    requires
        ed25519_point_valid(verifying_key@),
    ensures
        valid == ed25519_strict_valid(verifying_key@, content@, signature@),
{
    match ed25519_dalek::VerifyingKey::from_bytes(verifying_key) {
        Ok(key) => key.verify_strict(content, &ed25519_dalek::Signature::from_bytes(signature)).is_ok(),
        Err(_) => false,
    }
}

/// The view of a result that carries bytes.
pub open spec fn bytes_result(r: Result<Vec<u8>, TextError>) -> Result<Seq<u8>, TextError> {
    match r {
        Ok(bytes) => Ok(bytes@),
        Err(e) => Err(e),
    }
}

/// The capability to sign content.
pub trait TextSigner {
    /// What `sign` returns for `content`.
    spec fn sign_spec(&self, content: Seq<u8>) -> Result<Seq<u8>, TextError>;

    /// Signs the whole of `content`.
    fn sign(&self, content: &[u8]) -> (r: Result<Vec<u8>, TextError>)
        ensures
            bytes_result(r) == self.sign_spec(content@),
    ;
}

/// The capability to check a signature against content.
pub trait TextVerifyer {
    /// What `verify` returns for `content` and `sig`.
    spec fn verify_spec(&self, content: Seq<u8>, sig: Seq<u8>) -> Result<bool, TextError>;

    /// Checks `sig` against the whole of `content`.
    fn verify(&self, content: &[u8], sig: &[u8]) -> (r: Result<bool, TextError>)
        ensures
            r == self.verify_spec(content@, sig@),
    ;
}

/// The key set of the keyed-hash scheme: one entry, named `blake3.txt`, of
/// 32 bytes that make up a password over all four classes of characters.
pub open spec fn blake3_key_set(keys: Seq<(&'static str, Vec<u8>)>) -> bool {
    &&& keys.len() == 1
    &&& keys[0].0@ == "blake3.txt"@
    &&& keys[0].1@.len() == KEY_LEN
    &&& is_password(keys[0].1@, 32, false, false, false, false)
}

/// The key set of the Ed25519 scheme: the signing key, named `ed25519.sk`,
/// then the verifying key that belongs to it, named `ed25519.pk`, each of
/// 32 bytes. The verifying key decodes to a point of the curve.
pub open spec fn ed25519_key_set(keys: Seq<(&'static str, Vec<u8>)>) -> bool {
    &&& keys.len() == 2
    &&& keys[0].0@ == "ed25519.sk"@
    &&& keys[0].1@.len() == KEY_LEN
    &&& keys[1].0@ == "ed25519.pk"@
    &&& keys[1].1@.len() == KEY_LEN
    &&& keys[1].1@ == ed25519_public_key(keys[0].1@)
    &&& ed25519_point_valid(keys[1].1@)
}

/// The key set of the scheme `format`.
pub open spec fn key_set(keys: Seq<(&'static str, Vec<u8>)>, format: TextSignFormat) -> bool {
    match format {
        TextSignFormat::Blake3 => blake3_key_set(keys),
        TextSignFormat::Ed25519 => ed25519_key_set(keys),
    }
}

/// The keyed-hash scheme: one 32-byte secret signs and verifies.
pub struct Blake3 {
    key: [u8; 32],
}

impl View for Blake3 {
    type V = Seq<u8>;

    /// The 32 bytes of the secret.
    closed spec fn view(&self) -> Seq<u8> {
        self.key@
    }
}

impl Blake3 {
    /// Takes a secret of exactly 32 bytes.
    pub fn try_new(key: &[u8]) -> (r: Result<Self, TextError>)
        ensures
            r is Ok <==> key@.len() == KEY_LEN,
            r matches Ok(scheme) ==> scheme@ == key@,
            r matches Err(e) ==> e == TextError::InvalidKeyLength,
    {
        match byte_array::<32>(key) {
            Some(key) => Ok(Blake3 { key }),
            None => Err(TextError::InvalidKeyLength),
        }
    }

    /// The secret `secret` under its file name.
    pub fn key_set(secret: Vec<u8>) -> (keys: Vec<(&'static str, Vec<u8>)>)
        requires
            secret@.len() == KEY_LEN,
        ensures
            keys@.len() == 1,
            keys@[0].0@ == "blake3.txt"@,
            keys@[0].1@ == secret@,
    {
        let mut keys: Vec<(&'static str, Vec<u8>)> = Vec::new();
        keys.push(("blake3.txt", secret));
        keys
    }

    /// A fresh secret under its file name: 32 characters drawn as a password
    /// over all four classes is. Fails only where the operating system
    /// hands out no seed for the generator.
    pub fn generate() -> (r: Result<Vec<(&'static str, Vec<u8>)>, TextError>)
        ensures
            r matches Ok(keys) ==> blake3_key_set(keys@),
            r matches Err(e) ==> e == TextError::RandomSourceFailure,
    {
        match genpass_bytes(32, false, false, false, false) {
            Ok(secret) => Ok(Self::key_set(secret)),
            Err(_) => Err(TextError::RandomSourceFailure),
        }
    }
}

impl TextSigner for Blake3 {
    open spec fn sign_spec(&self, content: Seq<u8>) -> Result<Seq<u8>, TextError> {
        Ok(blake3_keyed_hash(self@, content))
    }

    fn sign(&self, content: &[u8]) -> (r: Result<Vec<u8>, TextError>)
        ensures
            r matches Ok(tag) && tag@.len() == TAG_LEN,
    {
        Ok(keyed_hash(&self.key, content))
    }
}

impl TextVerifyer for Blake3 {
    open spec fn verify_spec(&self, content: Seq<u8>, sig: Seq<u8>) -> Result<bool, TextError> {
        Ok(sig == blake3_keyed_hash(self@, content))
    }

    fn verify(&self, content: &[u8], sig: &[u8]) -> (r: Result<bool, TextError>) {
        let tag = keyed_hash(&self.key, content);
        Ok(bytes_equal(sig, tag.as_slice()))
    }
}

/// The signing half of the Ed25519 scheme: holds the 32-byte signing key.
pub struct Ed25519Signer {
    key: [u8; 32],
}

impl View for Ed25519Signer {
    type V = Seq<u8>;

    /// The 32 bytes of the signing key.
    closed spec fn view(&self) -> Seq<u8> {
        self.key@
    }
}

impl Ed25519Signer {
    /// Takes a signing key of exactly 32 bytes.
    pub fn try_new(key: &[u8]) -> (r: Result<Self, TextError>)
        ensures
            r is Ok <==> key@.len() == KEY_LEN,
            r matches Ok(signer) ==> signer@ == key@,
            r matches Err(e) ==> e == TextError::InvalidKeyLength,
    {
        match byte_array::<32>(key) {
            Some(key) => Ok(Ed25519Signer { key }),
            None => Err(TextError::InvalidKeyLength),
        }
    }

    /// The signing key `secret` and the verifying key that belongs to it,
    /// each under its file name.
    pub fn key_pair(secret: &[u8; 32]) -> (keys: Vec<(&'static str, Vec<u8>)>)
        ensures
            ed25519_key_set(keys@),
            keys@[0].1@ == secret@,
    {
        let public = ed25519_derive_public(secret);
        let mut keys: Vec<(&'static str, Vec<u8>)> = Vec::new();
        keys.push(("ed25519.sk", vstd::slice::slice_to_vec(secret.as_slice())));
        keys.push(("ed25519.pk", public));
        keys
    }

    /// A fresh signing key, drawn from the operating system, with its
    /// verifying key. Fails only where the operating system hands out no
    /// random bytes.
    pub fn generate() -> (r: Result<Vec<(&'static str, Vec<u8>)>, TextError>)
        ensures
            r matches Ok(keys) ==> ed25519_key_set(keys@),
            r matches Err(e) ==> e == TextError::RandomSourceFailure,
    {
        match secure_random_bytes(KEY_LEN) {
            Ok(drawn) => {
                match byte_array::<32>(drawn.as_slice()) {
                    Some(secret) => Ok(Self::key_pair(&secret)),
                    None => Err(TextError::RandomSourceFailure),
                }
            },
            Err(_) => Err(TextError::RandomSourceFailure),
        }
    }
}

impl TextSigner for Ed25519Signer {
    open spec fn sign_spec(&self, content: Seq<u8>) -> Result<Seq<u8>, TextError> {
        Ok(ed25519_signature(self@, content))
    }

    fn sign(&self, content: &[u8]) -> (r: Result<Vec<u8>, TextError>)
        ensures
            r matches Ok(signature) && signature@.len() == SIGNATURE_LEN,
    {
        Ok(ed25519_sign(&self.key, content))
    }
}

/// The verifying half of the Ed25519 scheme: holds a 32-byte verifying key
/// that decodes to a point of the curve.
pub struct Ed25519Verifyer {
    key: [u8; 32],
}

impl View for Ed25519Verifyer {
    type V = Seq<u8>;

    /// The 32 bytes of the verifying key.
    closed spec fn view(&self) -> Seq<u8> {
        self.key@
    }
}

impl Ed25519Verifyer {
    #[verifier::type_invariant]
    spec fn decodes(self) -> bool {
        ed25519_point_valid(self.key@)
    }

    /// Takes a verifying key of exactly 32 bytes that decodes to a point of
    /// the curve. The length is looked at first.
    pub fn try_new(key: &[u8]) -> (r: Result<Self, TextError>)
        ensures
            r == Err::<Self, TextError>(TextError::InvalidKeyLength) <==> key@.len() != KEY_LEN,
            r == Err::<Self, TextError>(TextError::InvalidPublicKey) <==> key@.len() == KEY_LEN
                && !ed25519_point_valid(key@),
            r is Ok <==> key@.len() == KEY_LEN && ed25519_point_valid(key@),
            r matches Ok(verifyer) ==> verifyer@ == key@,
    {
        match byte_array::<32>(key) {
            Some(key) => {
                if ed25519_check_point(&key) {
                    Ok(Ed25519Verifyer { key })
                } else {
                    Err(TextError::InvalidPublicKey)
                }
            },
            None => Err(TextError::InvalidKeyLength),
        }
    }
}

impl TextVerifyer for Ed25519Verifyer {
    open spec fn verify_spec(&self, content: Seq<u8>, sig: Seq<u8>) -> Result<bool, TextError> {
        if sig.len() != SIGNATURE_LEN {
            Err(TextError::MalformedSignature)
        } else {
            Ok(ed25519_strict_valid(self@, content, sig))
        }
    }

    fn verify(&self, content: &[u8], sig: &[u8]) -> (r: Result<bool, TextError>) {
        proof {
            use_type_invariant(self);
        }
        match byte_array::<64>(sig) {
            Some(signature) => Ok(ed25519_verify_strict(&self.key, content, &signature)),
            None => Err(TextError::MalformedSignature),
        }
    }
}

/// What `sign_text` returns: the key must be 32 bytes long, and the tag or
/// signature is the one the chosen scheme computes.
pub open spec fn sign_text_spec(content: Seq<u8>, key: Seq<u8>, format: TextSignFormat) -> Result<
    Seq<u8>,
    TextError,
> {
    if key.len() != KEY_LEN {
        Err(TextError::InvalidKeyLength)
    } else {
        match format {
            TextSignFormat::Blake3 => Ok(blake3_keyed_hash(key, content)),
            TextSignFormat::Ed25519 => Ok(ed25519_signature(key, content)),
        }
    }
}

/// What `verify_text` returns. The key is judged first, then the signature's
/// length, then the signature itself.
pub open spec fn verify_text_spec(
    content: Seq<u8>,
    key: Seq<u8>,
    sig: Seq<u8>,
    format: TextSignFormat,
) -> Result<bool, TextError> {
    if key.len() != KEY_LEN {
        Err(TextError::InvalidKeyLength)
    } else {
        match format {
            TextSignFormat::Blake3 => Ok(sig == blake3_keyed_hash(key, content)),
            TextSignFormat::Ed25519 => if !ed25519_point_valid(key) {
                Err(TextError::InvalidPublicKey)
            } else if sig.len() != SIGNATURE_LEN {
                Err(TextError::MalformedSignature)
            } else {
                Ok(ed25519_strict_valid(key, content, sig))
            },
        }
    }
}

/// The length of what the scheme `format` signs with.
pub open spec fn signature_len(format: TextSignFormat) -> nat {
    match format {
        TextSignFormat::Blake3 => TAG_LEN as nat,
        TextSignFormat::Ed25519 => SIGNATURE_LEN as nat,
    }
}

/// Signs `content` with `key` under the scheme `format`.
pub fn sign_text(content: &[u8], key: &[u8], format: TextSignFormat) -> (r: Result<
    Vec<u8>,
    TextError,
>)
    ensures
        bytes_result(r) == sign_text_spec(content@, key@, format),
        r is Ok <==> key@.len() == KEY_LEN,
        r matches Ok(sig) ==> sig@.len() == signature_len(format),
{
    match format {
        TextSignFormat::Blake3 => {
            match Blake3::try_new(key) {
                Ok(signer) => signer.sign(content),
                Err(e) => Err(e),
            }
        },
        TextSignFormat::Ed25519 => {
            match Ed25519Signer::try_new(key) {
                Ok(signer) => signer.sign(content),
                Err(e) => Err(e),
            }
        },
    }
}

/// Checks `sig` against `content` with `key` under the scheme `format`.
pub fn verify_text(content: &[u8], key: &[u8], sig: &[u8], format: TextSignFormat) -> (r: Result<
    bool,
    TextError,
>)
    ensures
        r == verify_text_spec(content@, key@, sig@, format),
{
    match format {
        TextSignFormat::Blake3 => {
            match Blake3::try_new(key) {
                Ok(verifyer) => verifyer.verify(content, sig),
                Err(e) => Err(e),
            }
        },
        TextSignFormat::Ed25519 => {
            match Ed25519Verifyer::try_new(key) {
                Ok(verifyer) => verifyer.verify(content, sig),
                Err(e) => Err(e),
            }
        },
    }
}

/// Fresh key material for the scheme `format`, each key under the name of
/// its file and in the order in which it was made. Fails only where the
/// operating system hands out no random bytes, and then hands out no key.
pub fn key_generate(format: TextSignFormat) -> (r: Result<Vec<(&'static str, Vec<u8>)>, TextError>)
    ensures
        r matches Ok(keys) ==> key_set(keys@, format),
        r matches Err(e) ==> e == TextError::RandomSourceFailure,
{
    match format {
        TextSignFormat::Blake3 => Blake3::generate(),
        TextSignFormat::Ed25519 => Ed25519Signer::generate(),
    }
}

/// A tag made by the keyed-hash scheme verifies under the same key.
pub proof fn lemma_blake3_round_trip(content: Seq<u8>, key: Seq<u8>)
    requires
        key.len() == KEY_LEN,
    ensures
        sign_text_spec(content, key, TextSignFormat::Blake3) matches Ok(tag) && verify_text_spec(
            content,
            key,
            tag,
            TextSignFormat::Blake3,
        ) == Ok::<bool, TextError>(true),
{
}

/// Under the keyed-hash scheme every byte string but the tag itself is
/// turned down: one flipped bit, one byte more or one byte less is enough.
pub proof fn lemma_blake3_rejects_altered_tag(content: Seq<u8>, key: Seq<u8>, sig: Seq<u8>)
    requires
        key.len() == KEY_LEN,
    ensures
        sign_text_spec(content, key, TextSignFormat::Blake3) != Ok::<Seq<u8>, TextError>(sig)
            ==> verify_text_spec(content, key, sig, TextSignFormat::Blake3) == Ok::<
            bool,
            TextError,
        >(false),
{
}

/// Under the keyed-hash scheme a tag made with one key is turned down under
/// every key that gives the content another hash.
pub proof fn lemma_blake3_rejects_other_key(content: Seq<u8>, key1: Seq<u8>, key2: Seq<u8>)
    requires
        key1.len() == KEY_LEN,
        key2.len() == KEY_LEN,
    ensures
        blake3_keyed_hash(key1, content) != blake3_keyed_hash(key2, content) ==> verify_text_spec(
            content,
            key2,
            blake3_keyed_hash(key1, content),
            TextSignFormat::Blake3,
        ) == Ok::<bool, TextError>(false),
{
}

/// A tag with one more byte at its end is never the tag.
pub proof fn lemma_blake3_rejects_longer_tag(content: Seq<u8>, key: Seq<u8>, extra: u8)
    requires
        key.len() == KEY_LEN,
    ensures
        verify_text_spec(
            content,
            key,
            blake3_keyed_hash(key, content).push(extra),
            TextSignFormat::Blake3,
        ) == Ok::<bool, TextError>(false),
{
    let tag = blake3_keyed_hash(key, content);
    assert(tag.push(extra).len() == tag.len() + 1);
}

/// Under the Ed25519 scheme a signature of any length but 64 is reported as
/// malformed, whatever it holds.
pub proof fn lemma_ed25519_rejects_other_lengths(content: Seq<u8>, key: Seq<u8>, sig: Seq<u8>)
    requires
        key.len() == KEY_LEN,
        sig.len() != SIGNATURE_LEN,
    ensures
        verify_text_spec(content, key, sig, TextSignFormat::Ed25519) is Err,
        ed25519_point_valid(key) ==> verify_text_spec(content, key, sig, TextSignFormat::Ed25519)
            == Err::<bool, TextError>(TextError::MalformedSignature),
{
}

/// What the ChaCha20-Poly1305 seal operation returns for `content` under
/// `key` and `nonce`, with no associated data: the ciphertext followed by
/// its tag, or nothing where the cipher refuses the content.
pub uninterp spec fn aead_seal(key: Seq<u8>, nonce: Seq<u8>, content: Seq<u8>) -> Option<Seq<u8>>;

/// What the ChaCha20-Poly1305 open operation returns for `sealed` under
/// `key` and `nonce`, with no associated data: the content, or nothing where
/// the tag does not verify.
pub uninterp spec fn aead_open(key: Seq<u8>, nonce: Seq<u8>, sealed: Seq<u8>) -> Option<Seq<u8>>;

/// The view of bytes that may be absent.
pub open spec fn bytes_option(o: Option<Vec<u8>>) -> Option<Seq<u8>> {
    match o {
        Some(bytes) => Some(bytes@),
        None => None,
    }
}

/// Builds a `chacha20poly1305::ChaCha20Poly1305` from the key and calls its
/// `Aead::encrypt`. Trusted: the result is the named seal of the three
/// arguments; the cipher seals whatever is shorter than `u32::MAX` blocks of
/// 64 bytes; what it returns is 16 bytes longer than the content; and
/// opening it under the same key and nonce gives the content back.
#[verifier::external_body]
fn aead_encrypt(key: &[u8; 32], nonce: &[u8; 12], content: &[u8]) -> (sealed: Option<Vec<u8>>)
    requires
        content@.len() + SEAL_TAG_LEN <= isize::MAX,
    ensures
        bytes_option(sealed) == aead_seal(key@, nonce@, content@),
        content@.len() / 64 < u32::MAX ==> sealed is Some,
        sealed matches Some(s) ==> s@.len() == content@.len() + SEAL_TAG_LEN,
        sealed matches Some(s) ==> aead_open(key@, nonce@, s@) == Some(content@),
{
    let cipher = <chacha20poly1305::ChaCha20Poly1305 as chacha20poly1305::KeyInit>::new(
        chacha20poly1305::Key::from_slice(key),
    );
    chacha20poly1305::aead::Aead::encrypt(&cipher, chacha20poly1305::Nonce::from_slice(nonce), content).ok()
}

/// Builds a `chacha20poly1305::ChaCha20Poly1305` from the key and calls its
/// `Aead::decrypt`. Trusted: the result is the named opening of the three
/// arguments, and content that comes out is 16 bytes shorter than what was
/// sealed.
#[verifier::external_body]
fn aead_decrypt(key: &[u8; 32], nonce: &[u8; 12], sealed: &[u8]) -> (content: Option<Vec<u8>>)
    ensures
        bytes_option(content) == aead_open(key@, nonce@, sealed@),
        content matches Some(c) ==> c@.len() + SEAL_TAG_LEN == sealed@.len(),
{
    let cipher = <chacha20poly1305::ChaCha20Poly1305 as chacha20poly1305::KeyInit>::new(
        chacha20poly1305::Key::from_slice(key),
    );
    chacha20poly1305::aead::Aead::decrypt(&cipher, chacha20poly1305::Nonce::from_slice(nonce), sealed).ok()
}

/// Asks `rand::rngs::OsRng` for `len` bytes through `RngCore::try_fill_bytes`.
/// Trusted: what comes back on success is `len` bytes long. Nothing is said
/// of the bytes themselves, and nothing of when the source fails.
#[verifier::external_body]
fn secure_random_bytes(len: usize) -> (r: Result<Vec<u8>, rand::Error>)
    requires
        len <= isize::MAX,
    ensures
        r matches Ok(bytes) ==> bytes@.len() == len,
{
    let mut bytes = vec![0u8; len];
    rand::RngCore::try_fill_bytes(&mut rand::rngs::OsRng, &mut bytes).map(|_| bytes)
}

/// Whether the envelope of `len` bytes of content is no longer than an
/// allocation can be.
pub open spec fn envelope_fits(len: nat) -> bool {
    len + NONCE_LEN + SEAL_TAG_LEN <= isize::MAX
}

/// What sealing `content` under `key` with the nonce `nonce` returns: the
/// nonce followed by the sealed content.
pub open spec fn encrypt_spec(content: Seq<u8>, key: Seq<u8>, nonce: Seq<u8>) -> Result<
    Seq<u8>,
    TextError,
> {
    if key.len() != KEY_LEN {
        Err(TextError::InvalidKeyLength)
    } else {
        match aead_seal(key, nonce, content) {
            Some(sealed) => Ok(nonce + sealed),
            None => Err(TextError::EncryptionFailed),
        }
    }
}

/// What `decrypt_text` returns. The key's length is judged first; an
/// envelope too short to hold a nonce fails like one that does not open.
pub open spec fn decrypt_spec(envelope: Seq<u8>, key: Seq<u8>) -> Result<Seq<u8>, TextError> {
    if key.len() != KEY_LEN {
        Err(TextError::InvalidKeyLength)
    } else if envelope.len() < NONCE_LEN {
        Err(TextError::DecryptionFailed)
    } else {
        match aead_open(
            key,
            envelope.subrange(0, NONCE_LEN as int),
            envelope.subrange(NONCE_LEN as int, envelope.len() as int),
        ) {
            Some(content) => Ok(content),
            None => Err(TextError::DecryptionFailed),
        }
    }
}

/// An envelope opens to whatever its sealed part opens to under its nonce:
/// parting an envelope undoes putting it together.
pub proof fn lemma_envelope_opens_as_sealed(key: Seq<u8>, nonce: Seq<u8>, sealed: Seq<u8>)
    requires
        key.len() == KEY_LEN,
        nonce.len() == NONCE_LEN,
    ensures
        decrypt_spec(nonce + sealed, key) == match aead_open(key, nonce, sealed) {
            Some(content) => Ok::<Seq<u8>, TextError>(content),
            None => Err::<Seq<u8>, TextError>(TextError::DecryptionFailed),
        },
{
    let envelope = nonce + sealed;
    assert(envelope.subrange(0, NONCE_LEN as int) =~= nonce);
    assert(envelope.subrange(NONCE_LEN as int, envelope.len() as int) =~= sealed);
}

/// Under a key of the right length decryption fails in one way only: an
/// envelope that is too short, was altered, or was sealed under another key
/// gives the same error.
pub proof fn lemma_decrypt_fails_closed(envelope: Seq<u8>, key: Seq<u8>)
    requires
        key.len() == KEY_LEN,
    ensures
        decrypt_spec(envelope, key) is Ok || decrypt_spec(envelope, key) == Err::<
            Seq<u8>,
            TextError,
        >(TextError::DecryptionFailed),
        envelope.len() < NONCE_LEN ==> decrypt_spec(envelope, key) is Err,
{
}

/// Two envelopes made with different nonces differ, whatever they seal.
pub proof fn lemma_distinct_nonces_distinct_envelopes(
    content: Seq<u8>,
    key: Seq<u8>,
    nonce1: Seq<u8>,
    nonce2: Seq<u8>,
)
    requires
        nonce1.len() == NONCE_LEN,
        nonce2.len() == NONCE_LEN,
        nonce1 != nonce2,
    ensures
        encrypt_spec(content, key, nonce1) is Ok ==> encrypt_spec(content, key, nonce1)
            != encrypt_spec(content, key, nonce2),
{
    if encrypt_spec(content, key, nonce1) is Ok && encrypt_spec(content, key, nonce2) is Ok {
        let one = encrypt_spec(content, key, nonce1).unwrap();
        let other = encrypt_spec(content, key, nonce2).unwrap();
        assert(one.subrange(0, NONCE_LEN as int) =~= nonce1);
        assert(other.subrange(0, NONCE_LEN as int) =~= nonce2);
    }
}

/// Puts the nonce in front of the sealed content.
pub fn seal_envelope(nonce: &[u8], sealed: Vec<u8>) -> (envelope: Vec<u8>)
    ensures
        envelope@ == nonce@ + sealed@,
{
    let mut envelope = vstd::slice::slice_to_vec(nonce);
    let mut sealed = sealed;
    envelope.append(&mut sealed);
    envelope
}

/// Parts an envelope into its nonce and its sealed content; an envelope
/// shorter than a nonce has neither.
pub fn split_envelope(envelope: &[u8]) -> (parts: Option<(&[u8], &[u8])>)
    ensures
        parts is Some <==> envelope@.len() >= NONCE_LEN,
        parts matches Some((nonce, sealed)) ==> nonce@ == envelope@.subrange(0, NONCE_LEN as int)
            && sealed@ == envelope@.subrange(NONCE_LEN as int, envelope@.len() as int),
{
    if envelope.len() < NONCE_LEN {
        None
    } else {
        let nonce = vstd::slice::slice_subrange(envelope, 0, NONCE_LEN);
        let sealed = vstd::slice::slice_subrange(envelope, NONCE_LEN, envelope.len());
        Some((nonce, sealed))
    }
}

/// Seals `content` under `key` with a nonce the caller has drawn. The
/// envelope opens again under the same key.
pub fn encrypt_with_nonce(content: &[u8], key: &[u8], nonce: &[u8; 12]) -> (r: Result<
    Vec<u8>,
    TextError,
>)
    requires
        envelope_fits(content@.len()),
    ensures
        bytes_result(r) == encrypt_spec(content@, key@, nonce@),
        key@.len() == KEY_LEN && content@.len() / 64 < u32::MAX ==> r is Ok,
        r matches Ok(envelope) ==> envelope@.len() == NONCE_LEN + content@.len() + SEAL_TAG_LEN,
        r matches Ok(envelope) ==> decrypt_spec(envelope@, key@) == Ok::<Seq<u8>, TextError>(
            content@,
        ),
{
    let key = match byte_array::<32>(key) {
        Some(key) => key,
        None => { return Err(TextError::InvalidKeyLength); },
    };
    match aead_encrypt(&key, nonce, content) {
        Some(sealed) => {
            let ghost sealed_bytes = sealed@;
            let envelope = seal_envelope(nonce.as_slice(), sealed);
            proof {
                assert(envelope@.subrange(0, NONCE_LEN as int) =~= nonce@);
                assert(envelope@.subrange(NONCE_LEN as int, envelope@.len() as int)
                    =~= sealed_bytes);
            }
            Ok(envelope)
        },
        None => Err(TextError::EncryptionFailed),
    }
}

/// Seals `content` under `key` with a nonce drawn afresh from the operating
/// system. The key's length is judged before the nonce is drawn.
pub fn encrypt_text(content: &[u8], key: &[u8]) -> (r: Result<Vec<u8>, TextError>)
    requires
        envelope_fits(content@.len()),
    ensures
        key@.len() != KEY_LEN <==> r == Err::<Vec<u8>, TextError>(TextError::InvalidKeyLength),
        r matches Err(e) ==> e == TextError::InvalidKeyLength || e
            == TextError::RandomSourceFailure || e == TextError::EncryptionFailed,
        key@.len() == KEY_LEN && content@.len() / 64 < u32::MAX ==> r is Ok || r == Err::<
            Vec<u8>,
            TextError,
        >(TextError::RandomSourceFailure),
        r matches Ok(envelope) ==> envelope@.len() == NONCE_LEN + content@.len() + SEAL_TAG_LEN
            && encrypt_spec(content@, key@, envelope@.subrange(0, NONCE_LEN as int)) == Ok::<
            Seq<u8>,
            TextError,
        >(envelope@),
        r matches Ok(envelope) ==> decrypt_spec(envelope@, key@) == Ok::<Seq<u8>, TextError>(
            content@,
        ),
{
    if key.len() != KEY_LEN {
        return Err(TextError::InvalidKeyLength);
    }
    match secure_random_bytes(NONCE_LEN) {
        Ok(drawn) => {
            match byte_array::<12>(drawn.as_slice()) {
                Some(nonce) => {
                    let r = encrypt_with_nonce(content, key, &nonce);
                    proof {
                        if r is Ok {
                            let sealed = aead_seal(key@, nonce@, content@).unwrap();
                            assert((nonce@ + sealed).subrange(0, NONCE_LEN as int) =~= nonce@);
                        }
                    }
                    r
                },
                None => Err(TextError::RandomSourceFailure),
            }
        },
        Err(_) => Err(TextError::RandomSourceFailure),
    }
}

/// Opens an envelope under `key`. The content is shorter than the envelope
/// by the nonce and the tag.
pub fn decrypt_text(envelope: &[u8], key: &[u8]) -> (r: Result<Vec<u8>, TextError>)
    ensures
        bytes_result(r) == decrypt_spec(envelope@, key@),
        r matches Ok(content) ==> content@.len() + NONCE_LEN + SEAL_TAG_LEN == envelope@.len(),
{
    let key = match byte_array::<32>(key) {
        Some(key) => key,
        None => { return Err(TextError::InvalidKeyLength); },
    };
    match split_envelope(envelope) {
        Some((nonce, sealed)) => {
            match byte_array::<12>(nonce) {
                Some(nonce) => {
                    match aead_decrypt(&key, &nonce, sealed) {
                        Some(content) => Ok(content),
                        None => Err(TextError::DecryptionFailed),
                    }
                },
                None => Err(TextError::DecryptionFailed),
            }
        },
        None => Err(TextError::DecryptionFailed),
    }
}

} // verus!

//! Options of the signing, verification, key generation and encryption
//! commands.

use vstd::prelude::*;
use vstd::utf8::*;

use crate::cli::FormatError;
use crate::process::base64::{
    base64_decoding, base64_encoding, decode_url_safe_no_pad, encode_url_safe_no_pad, encoded_fits,
};
use crate::process::text::{
    decrypt_spec, decrypt_text, ed25519_point_valid, encrypt_spec, encrypt_text, envelope_fits,
    key_generate, key_set, sign_text, sign_text_spec, verify_text, verify_text_spec, Blake3,
    Ed25519Signer, Ed25519Verifyer, TextError, KEY_LEN, NONCE_LEN, SEAL_TAG_LEN,
};
use crate::utils::{str_equal, string_from_utf8};

verus! {

/// The signing scheme to use.
#[derive(Debug, Clone, Copy, PartialEq, Eq, Structural)]
pub enum TextSignFormat {
    /// Keyed hash with a 32-byte shared secret.
    Blake3,
    /// Ed25519 signatures with a 32-byte signing key and a 32-byte verifying key.
    Ed25519,
}

impl TextSignFormat {
    /// Reads `blake3` or `ed25519`; every other word is refused.
    pub fn parse(s: &str) -> (r: Result<TextSignFormat, FormatError>)
        ensures
            s@ == "blake3"@ ==> r == Ok::<TextSignFormat, FormatError>(TextSignFormat::Blake3),
            s@ == "ed25519"@ ==> r == Ok::<TextSignFormat, FormatError>(TextSignFormat::Ed25519),
            s@ != "blake3"@ && s@ != "ed25519"@ ==> r == Err::<TextSignFormat, FormatError>(
                FormatError::InvalidFormat,
            ),
    {
        proof {
            reveal_strlit("blake3");
            reveal_strlit("ed25519");
            assert("blake3"@.len() != "ed25519"@.len());
        }
        if str_equal(s, "blake3") {
            Ok(TextSignFormat::Blake3)
        } else if str_equal(s, "ed25519") {
            Ok(TextSignFormat::Ed25519)
        } else {
            Err(FormatError::InvalidFormat)
        }
    }
}

impl std::str::FromStr for TextSignFormat {
    type Err = FormatError;

    /// Reads `blake3` or `ed25519`, as `parse` does.
    fn from_str(s: &str) -> (r: Result<Self, Self::Err>)
        ensures
            s@ == "blake3"@ ==> r == Ok::<TextSignFormat, FormatError>(TextSignFormat::Blake3),
            s@ == "ed25519"@ ==> r == Ok::<TextSignFormat, FormatError>(TextSignFormat::Ed25519),
            s@ != "blake3"@ && s@ != "ed25519"@ ==> r == Err::<TextSignFormat, FormatError>(
                FormatError::InvalidFormat,
            ),
    {
        TextSignFormat::parse(s)
    }
}

/// Why a command on text failed.
#[derive(Debug, Clone, Copy, PartialEq, Eq, Structural)]
pub enum CommandError {
    /// The operation on the bytes failed.
    Text(TextError),
    /// What should be URL-safe base64 without padding is not.
    InvalidBase64,
    /// The content that came out is not UTF-8 text.
    NotText,
}

/// The view of a result that carries text.
pub open spec fn printed<E>(r: Result<String, E>) -> Result<Seq<char>, E> {
    match r {
        Ok(text) => Ok(text@),
        Err(e) => Err(e),
    }
}

/// Options of the sign command.
#[derive(Debug)]
pub struct TextSignArgs {
    /// The file to sign, or `-` for the standard input.
    pub input: String,
    /// The file that holds the key.
    pub key: String,
    /// The scheme to sign under.
    pub format: TextSignFormat,
}

impl TextSignArgs {
    /// What `run` returns: the signature in URL-safe base64 without padding.
    pub open spec fn spec_run(&self, content: Seq<u8>, key: Seq<u8>) -> Result<
        Seq<char>,
        TextError,
    > {
        match sign_text_spec(content, key, self.format) {
            Ok(sig) => Ok(base64_encoding(true, false, sig)),
            Err(e) => Err(e),
        }
    }

    /// What is known of the key before any content is read: whether it has
    /// the length of a key.
    pub open spec fn spec_check_key(&self, key: Seq<u8>) -> Result<(), TextError> {
        if key.len() != KEY_LEN {
            Err(TextError::InvalidKeyLength)
        } else {
            Ok(())
        }
    }

    /// Judges the key before any content is read.
    pub fn check_key(&self, key: &[u8]) -> (r: Result<(), TextError>)
        ensures
            r == self.spec_check_key(key@),
    {
        match self.format {
            TextSignFormat::Blake3 => match Blake3::try_new(key) {
                Ok(_) => Ok(()),
                Err(e) => Err(e),
            },
            TextSignFormat::Ed25519 => match Ed25519Signer::try_new(key) {
                Ok(_) => Ok(()),
                Err(e) => Err(e),
            },
        }
    }

    /// A key that is turned down before the content is read is turned down
    /// in the same way whatever the content, and a key that is let through
    /// signs every content.
    pub proof fn lemma_key_judged_first(&self, content: Seq<u8>, key: Seq<u8>)
        ensures
            self.spec_check_key(key) matches Err(e) ==> self.spec_run(content, key) == Err::<
                Seq<char>,
                TextError,
            >(e),
            self.spec_check_key(key) is Ok ==> self.spec_run(content, key) is Ok,
    {
    }

    /// What the command prints for the content and the key it has read.
    pub fn run(&self, content: &[u8], key: &[u8]) -> (r: Result<String, TextError>)
        ensures
            printed(r) == self.spec_run(content@, key@),
    {
        match sign_text(content, key, self.format) {
            Ok(sig) => Ok(encode_url_safe_no_pad(sig.as_slice())),
            Err(e) => Err(e),
        }
    }
}

/// Options of the verify command.
#[derive(Debug)]
pub struct TextVerifyArgs {
    /// The file that was signed, or `-` for the standard input.
    pub input: String,
    /// The file that holds the key.
    pub key: String,
    /// The signature, in URL-safe base64 without padding.
    pub sig: String,
    /// The scheme the signature was made under.
    pub format: TextSignFormat,
}

impl TextVerifyArgs {
    /// What `run` returns. The signature's text is judged before the key.
    pub open spec fn spec_run(&self, content: Seq<u8>, key: Seq<u8>) -> Result<bool, CommandError> {
        match base64_decoding(true, false, encode_utf8(self.sig@)) {
            None => Err(CommandError::InvalidBase64),
            Some(sig) => match verify_text_spec(content, key, sig, self.format) {
                Ok(valid) => Ok(valid),
                Err(e) => Err(CommandError::Text(e)),
            },
        }
    }

    /// What is known before any content is read: whether the signature is
    /// base64, whether the key has the length of a key and, for Ed25519,
    /// whether it decodes to a point of the curve.
    pub open spec fn spec_check(&self, key: Seq<u8>) -> Result<(), CommandError> {
        if base64_decoding(true, false, encode_utf8(self.sig@)) is None {
            Err(CommandError::InvalidBase64)
        } else if key.len() != KEY_LEN {
            Err(CommandError::Text(TextError::InvalidKeyLength))
        } else if self.format == TextSignFormat::Ed25519 && !ed25519_point_valid(key) {
            Err(CommandError::Text(TextError::InvalidPublicKey))
        } else {
            Ok(())
        }
    }

    /// Judges the signature's text and the key before any content is read.
    pub fn check(&self, key: &[u8]) -> (r: Result<(), CommandError>)
        ensures
            r == self.spec_check(key@),
    {
        if decode_url_safe_no_pad(self.sig.as_str().as_bytes()).is_err() {
            return Err(CommandError::InvalidBase64);
        }
        match self.format {
            TextSignFormat::Blake3 => match Blake3::try_new(key) {
                Ok(_) => Ok(()),
                Err(e) => Err(CommandError::Text(e)),
            },
            TextSignFormat::Ed25519 => match Ed25519Verifyer::try_new(key) {
                Ok(_) => Ok(()),
                Err(e) => Err(CommandError::Text(e)),
            },
        }
    }

    /// What is turned down before the content is read is turned down in the
    /// same way whatever the content.
    pub proof fn lemma_judged_first(&self, content: Seq<u8>, key: Seq<u8>)
        ensures
            self.spec_check(key) matches Err(e) ==> self.spec_run(content, key) == Err::<
                bool,
                CommandError,
            >(e),
    {
    }

    /// What the command prints for the content and the key it has read.
    pub fn run(&self, content: &[u8], key: &[u8]) -> (r: Result<bool, CommandError>)
        ensures
            r == self.spec_run(content@, key@),
    {
        match decode_url_safe_no_pad(self.sig.as_str().as_bytes()) {
            Ok(sig) => match verify_text(content, key, sig.as_slice(), self.format) {
                Ok(valid) => Ok(valid),
                Err(e) => Err(CommandError::Text(e)),
            },
            Err(_) => Err(CommandError::InvalidBase64),
        }
    }
}

/// Options of the key generation command.
#[derive(Debug)]
pub struct KeyGenerateArgs {
    /// The scheme to make keys for.
    pub format: TextSignFormat,
    /// The directory that the key files are written to.
    pub output: String,
}

impl KeyGenerateArgs {
    /// The files the command writes: the name of each in the output
    /// directory, and what it holds.
    pub fn run(&self) -> (r: Result<Vec<(&'static str, Vec<u8>)>, TextError>)
        ensures
            r matches Ok(keys) ==> key_set(keys@, self.format),
            r matches Err(e) ==> e == TextError::RandomSourceFailure,
    {
        key_generate(self.format)
    }
}

/// Options of the encrypt command.
#[derive(Debug)]
pub struct TextEncryptArgs {
    /// The key: the 32 bytes of this text.
    pub key: String,
    /// The file to encrypt, or `-` for the standard input.
    pub input: String,
}

impl TextEncryptArgs {
    /// The bytes of the key.
    pub open spec fn key_bytes(&self) -> Seq<u8> {
        encode_utf8(self.key@)
    }

    /// Whether the envelope of `len` bytes of content, and its base64 text,
    /// are no longer than an allocation can be.
    pub open spec fn fits(len: nat) -> bool {
        envelope_fits(len) && encoded_fits((len + NONCE_LEN + SEAL_TAG_LEN) as nat)
    }

    /// What the command prints for the content it has read: an envelope in
    /// URL-safe base64 without padding. The envelope opens under the key to
    /// the content.
    pub fn run(&self, content: &[u8]) -> (r: Result<String, TextError>)
        requires
            Self::fits(content@.len()),
        ensures
            self.key_bytes().len() != 32 <==> r == Err::<String, TextError>(
                TextError::InvalidKeyLength,
            ),
            r matches Ok(text) ==> exists|envelope: Seq<u8>|
                text@ == #[trigger] base64_encoding(true, false, envelope) && decrypt_spec(
                    envelope,
                    self.key_bytes(),
                ) == Ok::<Seq<u8>, TextError>(content@) && envelope.len() >= NONCE_LEN
                    && encrypt_spec(
                    content@,
                    self.key_bytes(),
                    envelope.subrange(0, NONCE_LEN as int),
                ) == Ok::<Seq<u8>, TextError>(envelope),
    {
        match encrypt_text(content, self.key.as_str().as_bytes()) {
            Ok(envelope) => Ok(encode_url_safe_no_pad(envelope.as_slice())),
            Err(e) => Err(e),
        }
    }
}

/// Options of the decrypt command.
#[derive(Debug)]
pub struct TextDecryptArgs {
    /// The key: the 32 bytes of this text.
    pub key: String,
    /// The file that holds the envelope, or `-` for the standard input.
    pub input: String,
}

impl TextDecryptArgs {
    /// The bytes of the key.
    pub open spec fn key_bytes(&self) -> Seq<u8> {
        encode_utf8(self.key@)
    }

    /// What `run` returns: the envelope is read from URL-safe base64 without
    /// padding, opened under the key, and its content read as UTF-8 text.
    pub open spec fn spec_run(&self, content: Seq<u8>) -> Result<Seq<char>, CommandError> {
        match base64_decoding(true, false, content) {
            None => Err(CommandError::InvalidBase64),
            Some(envelope) => match decrypt_spec(envelope, self.key_bytes()) {
                Err(e) => Err(CommandError::Text(e)),
                Ok(plain) => if valid_utf8(plain) {
                    Ok(decode_utf8(plain))
                } else {
                    Err(CommandError::NotText)
                },
            },
        }
    }

    /// What the command prints for the content it has read.
    pub fn run(&self, content: &[u8]) -> (r: Result<String, CommandError>)
        ensures
            printed(r) == self.spec_run(content@),
    {
        match decode_url_safe_no_pad(content) {
            Ok(envelope) => match decrypt_text(envelope.as_slice(), self.key.as_str().as_bytes()) {
                Ok(plain) => match string_from_utf8(plain) {
                    Ok(text) => Ok(text),
                    Err(_) => Err(CommandError::NotText),
                },
                Err(e) => Err(CommandError::Text(e)),
            },
            Err(_) => Err(CommandError::InvalidBase64),
        }
    }
}

} // verus!

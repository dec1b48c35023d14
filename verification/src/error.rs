//! The error values that every operation of the library returns.

use vstd::prelude::*;

verus! {

/// What went wrong.
#[derive(Clone, Copy, Debug, PartialEq, Eq, Structural)]
pub enum ErrorKind {
    /// The secret key is not 32 bytes long.
    InvalidKeyLength,
    /// The nonce does not have the length that the variant asks for.
    InvalidNonceLength,
    /// The primitive rejected the stored key.
    CipherInitError,
    /// The primitive refused to seal the plaintext.
    EncryptionError,
    /// The tag did not verify against key, nonce and ciphertext.
    AuthenticationError,
    /// The operating system's entropy source failed.
    EntropySourceError,
}

/// A failure: its kind and a short message for the caller.
///
/// The message never holds key, nonce, plaintext or ciphertext bytes.
#[derive(Clone, Debug, PartialEq, Eq)]
pub struct CryptoError {
    pub kind: ErrorKind,
    pub message: String,
}

/// The text that the message of a failure of `kind` starts with.
///
/// For every kind but `EntropySourceError` it is the whole message; an entropy
/// failure goes on with what was asked for and what the entropy source said.
pub open spec fn message_head(kind: ErrorKind) -> Seq<char> {
    match kind {
        ErrorKind::InvalidKeyLength => "Invalid secret key length!"@,
        ErrorKind::InvalidNonceLength => "Invalid nonce key length!"@,
        ErrorKind::CipherInitError => "Cipher initialization failed: Invalid Length"@,
        ErrorKind::EncryptionError => "Encryption failed: aead::Error"@,
        ErrorKind::AuthenticationError => "Decryption failed: aead::Error"@,
        ErrorKind::EntropySourceError => "Failed to generate random "@,
    }
}

impl CryptoError {
    /// The failure of `kind` whose message is the kind's head and nothing more.
    pub fn new(kind: ErrorKind) -> (e: CryptoError)
        ensures
            e.kind == kind,
            e.message@ == message_head(kind),
    {
        let text: &str = match kind {
            ErrorKind::InvalidKeyLength => "Invalid secret key length!",
            ErrorKind::InvalidNonceLength => "Invalid nonce key length!",
            ErrorKind::CipherInitError => "Cipher initialization failed: Invalid Length",
            ErrorKind::EncryptionError => "Encryption failed: aead::Error",
            ErrorKind::AuthenticationError => "Decryption failed: aead::Error",
            ErrorKind::EntropySourceError => "Failed to generate random ",
        };
        CryptoError { kind, message: text.to_owned() }
    }

    /// The failure of `kind` whose message is the kind's head followed by `detail`.
    pub fn with_detail(kind: ErrorKind, detail: &str) -> (e: CryptoError)
        ensures
            e.kind == kind,
            e.message@ == message_head(kind) + detail@,
    {
        let head = CryptoError::new(kind);
        CryptoError { kind, message: head.message.concat(detail) }
    }

    /// The failure's message, as an owned string.
    pub fn message(&self) -> (m: String)
        ensures
            m@ == self.message@,
    {
        self.message.clone()
    }
}

} // verus!

//! The two ciphers that callers hold: ChaCha20-Poly1305 and
//! XChaCha20-Poly1305.

use vstd::prelude::*;
use crate::error::{message_head, CryptoError, ErrorKind};
use crate::primitive::{
    opened, sealed, within_limit, Variant, KEY_LENGTH, NONCE_LENGTH, XNONCE_LENGTH,
};
use crate::random::{entropy_head, CryptoUtils, RandomPurpose};
use crate::session::AeadSession;

verus! {

/// ChaCha20-Poly1305 with a 96-bit nonce: a 32-byte key, ready for any number of
/// messages. The view is the key.
pub struct ChaCha20Poly1305 {
    session: AeadSession,
}

impl View for ChaCha20Poly1305 {
    type V = Seq<u8>;

    closed spec fn view(&self) -> Seq<u8> {
        self.session@.key
    }
}

impl ChaCha20Poly1305 {
    #[verifier::type_invariant]
    spec fn well_formed(&self) -> bool {
        self.session@.variant == Variant::Standard
    }

    /// A cipher over a copy of `secret_key`, which must be 32 bytes long; any
    /// other length is `InvalidKeyLength`.
    pub fn new(secret_key: &[u8]) -> (out: Result<ChaCha20Poly1305, CryptoError>)
        ensures
            match out {
                Ok(cipher) => secret_key@.len() == 32 && cipher@ == secret_key@,
                Err(e) => secret_key@.len() != 32 && e.kind == ErrorKind::InvalidKeyLength
                    && e.message@ == message_head(e.kind),
            },
    {
        match AeadSession::new(Variant::Standard, secret_key) {
            Ok(session) => Ok(ChaCha20Poly1305 { session }),
            Err(e) => Err(e),
        }
    }

    /// Seals `plaintext` under `nonce`, which must be 12 bytes long.
    ///
    /// A nonce of another length is `InvalidNonceLength`, a plaintext over the
    /// block limit is `EncryptionError`. Every other call succeeds: the
    /// ciphertext is 16 bytes longer than the plaintext, and opens to it
    /// under the same nonce.
    pub fn encrypt(&self, nonce: &[u8], plaintext: &[u8]) -> (out: Result<Vec<u8>, CryptoError>)
        ensures
            match out {
                Ok(ciphertext) => nonce@.len() == 12 && within_limit(plaintext@.len())
                    && ciphertext@ == sealed(Variant::Standard, self@, nonce@, plaintext@),
                Err(e) => e.message@ == message_head(e.kind) && if nonce@.len() != 12 {
                    e.kind == ErrorKind::InvalidNonceLength
                } else {
                    e.kind == ErrorKind::EncryptionError && !within_limit(plaintext@.len())
                },
            },
            out matches Ok(ciphertext) ==> ciphertext@.len() == plaintext@.len() + 16,
            out matches Ok(ciphertext) ==> opened(Variant::Standard, self@, nonce@, ciphertext@)
                == Some(plaintext@),
    {
        proof {
            use_type_invariant(self);
        }
        self.session.encrypt(nonce, plaintext)
    }

    /// Opens `ciphertext` under `nonce`, which must be 12 bytes long.
    ///
    /// A nonce of another length is `InvalidNonceLength`. A ciphertext whose
    /// tag does not verify under this key and nonce, or that is too short to
    /// hold a tag, is `AuthenticationError`, with nothing of the plaintext
    /// returned. Every other call gives the plaintext.
    pub fn decrypt(&self, nonce: &[u8], ciphertext: &[u8]) -> (out: Result<Vec<u8>, CryptoError>)
        ensures
            match out {
                Ok(plaintext) => nonce@.len() == 12 && opened(
                    Variant::Standard,
                    self@,
                    nonce@,
                    ciphertext@,
                ) == Some(plaintext@),
                Err(e) => e.message@ == message_head(e.kind) && if nonce@.len() != 12 {
                    e.kind == ErrorKind::InvalidNonceLength
                } else {
                    e.kind == ErrorKind::AuthenticationError && opened(
                        Variant::Standard,
                        self@,
                        nonce@,
                        ciphertext@,
                    ) is None
                },
            },
    {
        proof {
            use_type_invariant(self);
        }
        self.session.decrypt(nonce, ciphertext)
    }

    /// A fresh random key: 32 bytes from the entropy source, or
    /// `EntropySourceError` where the source fails, with a message that
    /// starts "Failed to generate random key: ".
    pub fn generate_key() -> (out: Result<Vec<u8>, CryptoError>)
        ensures
            match out {
                Ok(key) => key@.len() == 32,
                Err(e) => e.kind == ErrorKind::EntropySourceError && entropy_head(
                    RandomPurpose::Key,
                ).is_prefix_of(e.message@),
            },
    {
        CryptoUtils::random_for(RandomPurpose::Key, KEY_LENGTH)
    }

    /// A fresh random nonce: 12 bytes from the entropy source, or
    /// `EntropySourceError` where the source fails, with a message that
    /// starts "Failed to generate random nonce: ".
    pub fn generate_nonce() -> (out: Result<Vec<u8>, CryptoError>)
        ensures
            match out {
                Ok(nonce) => nonce@.len() == 12,
                Err(e) => e.kind == ErrorKind::EntropySourceError && entropy_head(
                    RandomPurpose::Nonce,
                ).is_prefix_of(e.message@),
            },
    {
        CryptoUtils::random_for(RandomPurpose::Nonce, NONCE_LENGTH)
    }
}

/// XChaCha20-Poly1305 with a 192-bit nonce: a 32-byte key, ready for any number of
/// messages. The view is the key.
pub struct XChaCha20Poly1305 {
    session: AeadSession,
}

impl View for XChaCha20Poly1305 {
    type V = Seq<u8>;

    closed spec fn view(&self) -> Seq<u8> {
        self.session@.key
    }
}

impl XChaCha20Poly1305 {
    #[verifier::type_invariant]
    spec fn well_formed(&self) -> bool {
        self.session@.variant == Variant::Extended
    }

    /// A cipher over a copy of `secret_key`, which must be 32 bytes long; any
    /// other length is `InvalidKeyLength`.
    pub fn new(secret_key: &[u8]) -> (out: Result<XChaCha20Poly1305, CryptoError>)
        ensures
            match out {
                Ok(cipher) => secret_key@.len() == 32 && cipher@ == secret_key@,
                Err(e) => secret_key@.len() != 32 && e.kind == ErrorKind::InvalidKeyLength
                    && e.message@ == message_head(e.kind),
            },
    {
        match AeadSession::new(Variant::Extended, secret_key) {
            Ok(session) => Ok(XChaCha20Poly1305 { session }),
            Err(e) => Err(e),
        }
    }

    /// Seals `plaintext` under `nonce`, which must be 24 bytes long.
    ///
    /// A nonce of another length is `InvalidNonceLength`, a plaintext over the
    /// block limit is `EncryptionError`. Every other call succeeds: the
    /// ciphertext is 16 bytes longer than the plaintext, and opens to it
    /// under the same nonce.
    pub fn encrypt(&self, nonce: &[u8], plaintext: &[u8]) -> (out: Result<Vec<u8>, CryptoError>)
        ensures
            match out {
                Ok(ciphertext) => nonce@.len() == 24 && within_limit(plaintext@.len())
                    && ciphertext@ == sealed(Variant::Extended, self@, nonce@, plaintext@),
                Err(e) => e.message@ == message_head(e.kind) && if nonce@.len() != 24 {
                    e.kind == ErrorKind::InvalidNonceLength
                } else {
                    e.kind == ErrorKind::EncryptionError && !within_limit(plaintext@.len())
                },
            },
            out matches Ok(ciphertext) ==> ciphertext@.len() == plaintext@.len() + 16,
            out matches Ok(ciphertext) ==> opened(Variant::Extended, self@, nonce@, ciphertext@)
                == Some(plaintext@),
    {
        proof {
            use_type_invariant(self);
        }
        self.session.encrypt(nonce, plaintext)
    }

    /// Opens `ciphertext` under `nonce`, which must be 24 bytes long.
    ///
    /// A nonce of another length is `InvalidNonceLength`. A ciphertext whose
    /// tag does not verify under this key and nonce, or that is too short to
    /// hold a tag, is `AuthenticationError`, with nothing of the plaintext
    /// returned. Every other call gives the plaintext.
    pub fn decrypt(&self, nonce: &[u8], ciphertext: &[u8]) -> (out: Result<Vec<u8>, CryptoError>)
        ensures
            match out {
                Ok(plaintext) => nonce@.len() == 24 && opened(
                    Variant::Extended,
                    self@,
                    nonce@,
                    ciphertext@,
                ) == Some(plaintext@),
                Err(e) => e.message@ == message_head(e.kind) && if nonce@.len() != 24 {
                    e.kind == ErrorKind::InvalidNonceLength
                } else {
                    e.kind == ErrorKind::AuthenticationError && opened(
                        Variant::Extended,
                        self@,
                        nonce@,
                        ciphertext@,
                    ) is None
                },
            },
    {
        proof {
            use_type_invariant(self);
        }
        self.session.decrypt(nonce, ciphertext)
    }

    /// A fresh random key: 32 bytes from the entropy source, or
    /// `EntropySourceError` where the source fails, with a message that
    /// starts "Failed to generate random key: ".
    pub fn generate_key() -> (out: Result<Vec<u8>, CryptoError>)
        ensures
            match out {
                Ok(key) => key@.len() == 32,
                Err(e) => e.kind == ErrorKind::EntropySourceError && entropy_head(
                    RandomPurpose::Key,
                ).is_prefix_of(e.message@),
            },
    {
        CryptoUtils::random_for(RandomPurpose::Key, KEY_LENGTH)
    }

    /// A fresh random nonce: 24 bytes from the entropy source, or
    /// `EntropySourceError` where the source fails, with a message that
    /// starts "Failed to generate random nonce: ".
    pub fn generate_nonce() -> (out: Result<Vec<u8>, CryptoError>)
        ensures
            match out {
                Ok(nonce) => nonce@.len() == 24,
                Err(e) => e.kind == ErrorKind::EntropySourceError && entropy_head(
                    RandomPurpose::Nonce,
                ).is_prefix_of(e.message@),
            },
    {
        CryptoUtils::random_for(RandomPurpose::Nonce, XNONCE_LENGTH)
    }
}

} // verus!

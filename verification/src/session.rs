//! A cipher session: a validated key and a variant, ready for any number of
//! calls, each with its own nonce.

use vstd::prelude::*;
use vstd::slice::slice_to_vec;
use crate::error::{message_head, CryptoError, ErrorKind};
use crate::laws::{lemma_round_trip, lemma_sealed_parts};
use crate::primitive::{
    nonce_length, open, opened, seal, sealed, within_limit, PrimitiveFailure, Variant, KEY_LENGTH,
};

verus! {

/// What a session is, to a contract: its variant and its key bytes.
pub struct SessionView {
    pub variant: Variant,
    pub key: Seq<u8>,
}

/// A key bound to a variant. It never changes after `new`.
pub struct AeadSession {
    variant: Variant,
    key: Vec<u8>,
}

impl View for AeadSession {
    type V = SessionView;

    closed spec fn view(&self) -> SessionView {
        SessionView { variant: self.variant, key: self.key@ }
    }
}

/// What sealing returns to the caller, for each thing the primitive may
/// return: its bytes, or the failure under its kind.
pub fn seal_outcome(result: Result<Vec<u8>, PrimitiveFailure>) -> (out: Result<Vec<u8>, CryptoError>)
    ensures
        match result {
            Ok(bytes) => out matches Ok(same) && same == bytes,
            Err(PrimitiveFailure::KeyRejected) => out matches Err(e) && e.kind
                == ErrorKind::CipherInitError && e.message@ == message_head(e.kind),
            Err(PrimitiveFailure::Refused) => out matches Err(e) && e.kind
                == ErrorKind::EncryptionError && e.message@ == message_head(e.kind),
        },
{
    match result {
        Ok(bytes) => Ok(bytes),
        Err(PrimitiveFailure::KeyRejected) => Err(CryptoError::new(ErrorKind::CipherInitError)),
        Err(PrimitiveFailure::Refused) => Err(CryptoError::new(ErrorKind::EncryptionError)),
    }
}

/// What opening returns to the caller, for each thing the primitive may
/// return. Every refusal becomes the same authentication failure, whatever
/// caused it.
pub fn open_outcome(result: Result<Vec<u8>, PrimitiveFailure>) -> (out: Result<Vec<u8>, CryptoError>)
    ensures
        match result {
            Ok(bytes) => out matches Ok(same) && same == bytes,
            Err(PrimitiveFailure::KeyRejected) => out matches Err(e) && e.kind
                == ErrorKind::CipherInitError && e.message@ == message_head(e.kind),
            Err(PrimitiveFailure::Refused) => out matches Err(e) && e.kind
                == ErrorKind::AuthenticationError && e.message@ == message_head(e.kind),
        },
{
    match result {
        Ok(bytes) => Ok(bytes),
        Err(PrimitiveFailure::KeyRejected) => Err(CryptoError::new(ErrorKind::CipherInitError)),
        Err(PrimitiveFailure::Refused) => Err(CryptoError::new(ErrorKind::AuthenticationError)),
    }
}

impl AeadSession {
    #[verifier::type_invariant]
    spec fn well_formed(&self) -> bool {
        self.key@.len() == 32
    }

    /// A session of `variant` over a copy of `secret_key`, which must be 32
    /// bytes long; any other length is `InvalidKeyLength`.
    pub fn new(variant: Variant, secret_key: &[u8]) -> (out: Result<AeadSession, CryptoError>)
        ensures
            match out {
                Ok(session) => secret_key@.len() == 32 && session@ == (SessionView {
                    variant,
                    key: secret_key@,
                }),
                Err(e) => secret_key@.len() != 32 && e.kind == ErrorKind::InvalidKeyLength
                    && e.message@ == message_head(e.kind),
            },
    {
        if secret_key.len() != KEY_LENGTH {
            return Err(CryptoError::new(ErrorKind::InvalidKeyLength));
        }
        Ok(AeadSession { variant, key: slice_to_vec(secret_key) })
    }

    /// The session's variant.
    pub fn variant(&self) -> (variant: Variant)
        ensures
            variant == self@.variant,
    {
        self.variant
    }

    /// Seals `plaintext` under `nonce`.
    ///
    /// A nonce of the wrong length is `InvalidNonceLength`, a plaintext over
    /// the block limit is `EncryptionError`. Every other call succeeds: the
    /// ciphertext is 16 bytes longer than the plaintext, and opens to it
    /// under the same nonce.
    pub fn encrypt(&self, nonce: &[u8], plaintext: &[u8]) -> (out: Result<Vec<u8>, CryptoError>)
        ensures
            match out {
                Ok(ciphertext) => nonce@.len() == nonce_length(self@.variant) && within_limit(
                    plaintext@.len(),
                ) && ciphertext@ == sealed(self@.variant, self@.key, nonce@, plaintext@),
                Err(e) => e.message@ == message_head(e.kind) && if nonce@.len() != nonce_length(
                    self@.variant,
                ) {
                    e.kind == ErrorKind::InvalidNonceLength
                } else {
                    e.kind == ErrorKind::EncryptionError && !within_limit(plaintext@.len())
                },
            },
            out matches Ok(ciphertext) ==> ciphertext@.len() == plaintext@.len() + 16,
            out matches Ok(ciphertext) ==> opened(self@.variant, self@.key, nonce@, ciphertext@)
                == Some(plaintext@),
    {
        if nonce.len() != self.variant.nonce_len() {
            return Err(CryptoError::new(ErrorKind::InvalidNonceLength));
        }
        proof {
            use_type_invariant(self);
            lemma_sealed_parts(self.variant, self.key@, nonce@, plaintext@);
            if within_limit(plaintext@.len()) {
                lemma_round_trip(self.variant, self.key@, nonce@, plaintext@);
            }
        }
        seal_outcome(seal(self.variant, self.key.as_slice(), nonce, plaintext))
    }

    /// Opens `ciphertext` under `nonce`.
    ///
    /// A nonce of the wrong length is `InvalidNonceLength`. A ciphertext whose
    /// tag does not verify under this key and nonce, or that is too short to
    /// hold a tag, is `AuthenticationError`, with nothing of the plaintext
    /// returned. Every other call gives the plaintext.
    pub fn decrypt(&self, nonce: &[u8], ciphertext: &[u8]) -> (out: Result<Vec<u8>, CryptoError>)
        ensures
            match out {
                Ok(plaintext) => nonce@.len() == nonce_length(self@.variant) && opened(
                    self@.variant,
                    self@.key,
                    nonce@,
                    ciphertext@,
                ) == Some(plaintext@),
                Err(e) => e.message@ == message_head(e.kind) && if nonce@.len() != nonce_length(
                    self@.variant,
                ) {
                    e.kind == ErrorKind::InvalidNonceLength
                } else {
                    e.kind == ErrorKind::AuthenticationError && opened(
                        self@.variant,
                        self@.key,
                        nonce@,
                        ciphertext@,
                    ) is None
                },
            },
    {
        if nonce.len() != self.variant.nonce_len() {
            return Err(CryptoError::new(ErrorKind::InvalidNonceLength));
        }
        proof {
            use_type_invariant(self);
        }
        open_outcome(open(self.variant, self.key.as_slice(), nonce, ciphertext))
    }
}

} // verus!

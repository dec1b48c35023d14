//! The two AEAD constructions: what they compute, and the calls that compute it.
//!
//! Both constructions XOR the message with a keystream and append a 16-byte
//! tag over the result. The keystream and the tag are named here, not
//! defined: their values come from the `chacha20poly1305` crate, which
//! `seal` and `open` call.

use vstd::prelude::*;
use chacha20poly1305::aead::Aead;
use chacha20poly1305::KeyInit;

verus! {

/// Length of a secret key, in bytes.
pub const KEY_LENGTH: usize = 32;

/// Length of the authentication tag that ends every ciphertext, in bytes.
pub const TAG_LENGTH: usize = 16;

/// Length of a ChaCha20-Poly1305 nonce, in bytes.
pub const NONCE_LENGTH: usize = 12;

/// Length of an XChaCha20-Poly1305 nonce, in bytes.
pub const XNONCE_LENGTH: usize = 24;

/// Which construction a cipher instance runs.
#[derive(Clone, Copy, Debug, PartialEq, Eq, Structural)]
pub enum Variant {
    /// ChaCha20-Poly1305, with a 96-bit nonce.
    Standard,
    /// XChaCha20-Poly1305, with a 192-bit nonce.
    Extended,
}

/// Why the primitive returned no bytes.
#[derive(Clone, Copy, Debug, PartialEq, Eq, Structural)]
pub enum PrimitiveFailure {
    /// It did not accept the key.
    KeyRejected,
    /// It accepted the key and refused the message.
    Refused,
}

/// The nonce length that `variant` asks for.
pub open spec fn nonce_length(variant: Variant) -> nat {
    match variant {
        Variant::Standard => 12,
        Variant::Extended => 24,
    }
}

impl Variant {
    /// The nonce length that this variant asks for, in bytes.
    pub fn nonce_len(self) -> (len: usize)
        ensures
            len == nonce_length(self),
    {
        match self {
            Variant::Standard => NONCE_LENGTH,
            Variant::Extended => XNONCE_LENGTH,
        }
    }
}

/// The longest message that the block counter can cover, in bytes: 2^32 - 2
/// blocks of 64 bytes.
pub const MESSAGE_LIMIT: u64 = 274_877_906_816;

/// Whether a message of `len` bytes is short enough for the block counter.
pub open spec fn within_limit(len: nat) -> bool {
    len <= MESSAGE_LIMIT
}

/// Byte `index` of the ChaCha20 keystream that masks a message under `key`
/// and `nonce`.
pub uninterp spec fn chacha20_keystream_byte(key: Seq<u8>, nonce: Seq<u8>, index: int) -> u8;

/// Byte `index` of the Poly1305 tag that ChaCha20-Poly1305 computes over the
/// masked message `body` under `key` and `nonce`.
pub uninterp spec fn chacha20_tag_byte(key: Seq<u8>, nonce: Seq<u8>, body: Seq<u8>, index: int) -> u8;

/// Byte `index` of the XChaCha20 keystream that masks a message under `key`
/// and `nonce`.
pub uninterp spec fn xchacha20_keystream_byte(key: Seq<u8>, nonce: Seq<u8>, index: int) -> u8;

/// Byte `index` of the Poly1305 tag that XChaCha20-Poly1305 computes over the
/// masked message `body` under `key` and `nonce`.
pub uninterp spec fn xchacha20_tag_byte(key: Seq<u8>, nonce: Seq<u8>, body: Seq<u8>, index: int) -> u8;

/// `data` XORed with the keystream of `variant`. Applying it twice gives
/// `data` back.
pub open spec fn masked(variant: Variant, key: Seq<u8>, nonce: Seq<u8>, data: Seq<u8>) -> Seq<u8> {
    match variant {
        Variant::Standard => Seq::new(
            data.len(),
            |i: int| data[i] ^ chacha20_keystream_byte(key, nonce, i),
        ),
        Variant::Extended => Seq::new(
            data.len(),
            |i: int| data[i] ^ xchacha20_keystream_byte(key, nonce, i),
        ),
    }
}

/// The 16-byte tag of `variant` over the masked message `body`.
pub open spec fn tag(variant: Variant, key: Seq<u8>, nonce: Seq<u8>, body: Seq<u8>) -> Seq<u8> {
    match variant {
        Variant::Standard => Seq::new(16, |i: int| chacha20_tag_byte(key, nonce, body, i)),
        Variant::Extended => Seq::new(16, |i: int| xchacha20_tag_byte(key, nonce, body, i)),
    }
}

/// The ciphertext of `plaintext`: the masked plaintext, then the tag over it.
pub open spec fn sealed(
    variant: Variant,
    key: Seq<u8>,
    nonce: Seq<u8>,
    plaintext: Seq<u8>,
) -> Seq<u8> {
    let body = masked(variant, key, nonce, plaintext);
    body + tag(variant, key, nonce, body)
}

/// The plaintext of `ciphertext`, where its last 16 bytes are the tag over
/// the bytes before them; `None` where they are not, or where it is shorter
/// than a tag or longer than the limit.
pub open spec fn opened(
    variant: Variant,
    key: Seq<u8>,
    nonce: Seq<u8>,
    ciphertext: Seq<u8>,
) -> Option<Seq<u8>> {
    if ciphertext.len() < 16 {
        None
    } else {
        let cut = ciphertext.len() - 16;
        let body = ciphertext.subrange(0, cut);
        let last = ciphertext.subrange(cut, ciphertext.len() as int);
        if within_limit(body.len()) && last == tag(variant, key, nonce, body) {
            Some(masked(variant, key, nonce, body))
        } else {
            None
        }
    }
}

/// Seals with `chacha20poly1305::ChaCha20Poly1305`: `new_from_slice` on the key, then
/// `Aead::encrypt`.
///
/// Trusted: `new_from_slice` fails exactly for a key that is not 32 bytes
/// long. `encrypt` returns for every plaintext within the block limit, and
/// does not fail there; beyond it the keystream may run out, so such a
/// plaintext is not handed over. The ciphertext is the plaintext XORed with
/// the ChaCha20 keystream, followed by the 16-byte tag over those masked bytes.
#[verifier::external_body]
fn chacha20poly1305_seal(key: &[u8], nonce: &[u8], plaintext: &[u8]) -> (out: Result<Vec<u8>, PrimitiveFailure>)
    requires
        nonce@.len() == 12,
        within_limit(plaintext@.len()),
    ensures
        out matches Err(PrimitiveFailure::KeyRejected) <==> key@.len() != 32,
        out is Ok <==> key@.len() == 32,
        out matches Ok(ciphertext) ==> ciphertext@.len() == plaintext@.len() + 16,
        out matches Ok(ciphertext) ==> forall|i: int|
            0 <= i < plaintext@.len() ==> #[trigger] ciphertext@[i] == plaintext@[i] ^ chacha20_keystream_byte(
                key@,
                nonce@,
                i,
            ),
        out matches Ok(ciphertext) ==> forall|i: int|
            0 <= i < 16 ==> ciphertext@[plaintext@.len() + i] == #[trigger] chacha20_tag_byte(
                key@,
                nonce@,
                ciphertext@.subrange(0, plaintext@.len() as int),
                i,
            ),
{
    match chacha20poly1305::ChaCha20Poly1305::new_from_slice(key) {
        Err(_) => Err(PrimitiveFailure::KeyRejected),
        Ok(cipher) => match cipher.encrypt(chacha20poly1305::Nonce::from_slice(nonce), plaintext) {
            Ok(ciphertext) => Ok(ciphertext),
            Err(_) => Err(PrimitiveFailure::Refused),
        },
    }
}

/// Opens with `chacha20poly1305::ChaCha20Poly1305`: `new_from_slice` on the key, then
/// `Aead::decrypt`.
///
/// Trusted: `new_from_slice` fails exactly for a key that is not 32 bytes
/// long. `decrypt` returns for every ciphertext whose bytes before the tag
/// are within the block limit; beyond it the keystream may run out, so such
/// a ciphertext is not handed over. It succeeds exactly where the ciphertext
/// holds at least 16 bytes and the last 16 are the tag over the bytes before
/// them; the plaintext is then those bytes XORed with the ChaCha20 keystream.
#[verifier::external_body]
fn chacha20poly1305_open(key: &[u8], nonce: &[u8], ciphertext: &[u8]) -> (out: Result<Vec<u8>, PrimitiveFailure>)
    requires
        nonce@.len() == 12,
        ciphertext@.len() <= MESSAGE_LIMIT + 16,
    ensures
        out matches Err(PrimitiveFailure::KeyRejected) <==> key@.len() != 32,
        out is Ok <==> (key@.len() == 32 && ciphertext@.len() >= 16 && forall|i: int|
            0 <= i < 16 ==> ciphertext@[ciphertext@.len() - 16 + i] == #[trigger] chacha20_tag_byte(
                key@,
                nonce@,
                ciphertext@.subrange(0, ciphertext@.len() - 16),
                i,
            )),
        out matches Ok(plaintext) ==> plaintext@.len() == ciphertext@.len() - 16,
        out matches Ok(plaintext) ==> forall|i: int|
            0 <= i < plaintext@.len() ==> #[trigger] plaintext@[i] == ciphertext@[i] ^ chacha20_keystream_byte(
                key@,
                nonce@,
                i,
            ),
{
    match chacha20poly1305::ChaCha20Poly1305::new_from_slice(key) {
        Err(_) => Err(PrimitiveFailure::KeyRejected),
        Ok(cipher) => match cipher.decrypt(chacha20poly1305::Nonce::from_slice(nonce), ciphertext) {
            Ok(plaintext) => Ok(plaintext),
            Err(_) => Err(PrimitiveFailure::Refused),
        },
    }
}

/// Seals with `chacha20poly1305::XChaCha20Poly1305`: `new_from_slice` on the key, then
/// `Aead::encrypt`.
///
/// Trusted: `new_from_slice` fails exactly for a key that is not 32 bytes
/// long. `encrypt` returns for every plaintext within the block limit, and
/// does not fail there; beyond it the keystream may run out, so such a
/// plaintext is not handed over. The ciphertext is the plaintext XORed with
/// the XChaCha20 keystream, followed by the 16-byte tag over those masked bytes.
#[verifier::external_body]
fn xchacha20poly1305_seal(key: &[u8], nonce: &[u8], plaintext: &[u8]) -> (out: Result<Vec<u8>, PrimitiveFailure>)
    requires
        nonce@.len() == 24,
        within_limit(plaintext@.len()),
    ensures
        out matches Err(PrimitiveFailure::KeyRejected) <==> key@.len() != 32,
        out is Ok <==> key@.len() == 32,
        out matches Ok(ciphertext) ==> ciphertext@.len() == plaintext@.len() + 16,
        out matches Ok(ciphertext) ==> forall|i: int|
            0 <= i < plaintext@.len() ==> #[trigger] ciphertext@[i] == plaintext@[i] ^ xchacha20_keystream_byte(
                key@,
                nonce@,
                i,
            ),
        out matches Ok(ciphertext) ==> forall|i: int|
            0 <= i < 16 ==> ciphertext@[plaintext@.len() + i] == #[trigger] xchacha20_tag_byte(
                key@,
                nonce@,
                ciphertext@.subrange(0, plaintext@.len() as int),
                i,
            ),
{
    match chacha20poly1305::XChaCha20Poly1305::new_from_slice(key) {
        Err(_) => Err(PrimitiveFailure::KeyRejected),
        Ok(cipher) => match cipher.encrypt(chacha20poly1305::XNonce::from_slice(nonce), plaintext) {
            Ok(ciphertext) => Ok(ciphertext),
            Err(_) => Err(PrimitiveFailure::Refused),
        },
    }
}

/// Opens with `chacha20poly1305::XChaCha20Poly1305`: `new_from_slice` on the key, then
/// `Aead::decrypt`.
///
/// Trusted: `new_from_slice` fails exactly for a key that is not 32 bytes
/// long. `decrypt` returns for every ciphertext whose bytes before the tag
/// are within the block limit; beyond it the keystream may run out, so such
/// a ciphertext is not handed over. It succeeds exactly where the ciphertext
/// holds at least 16 bytes and the last 16 are the tag over the bytes before
/// them; the plaintext is then those bytes XORed with the XChaCha20 keystream.
#[verifier::external_body]
fn xchacha20poly1305_open(key: &[u8], nonce: &[u8], ciphertext: &[u8]) -> (out: Result<Vec<u8>, PrimitiveFailure>)
    requires
        nonce@.len() == 24,
        ciphertext@.len() <= MESSAGE_LIMIT + 16,
    ensures
        out matches Err(PrimitiveFailure::KeyRejected) <==> key@.len() != 32,
        out is Ok <==> (key@.len() == 32 && ciphertext@.len() >= 16 && forall|i: int|
            0 <= i < 16 ==> ciphertext@[ciphertext@.len() - 16 + i] == #[trigger] xchacha20_tag_byte(
                key@,
                nonce@,
                ciphertext@.subrange(0, ciphertext@.len() - 16),
                i,
            )),
        out matches Ok(plaintext) ==> plaintext@.len() == ciphertext@.len() - 16,
        out matches Ok(plaintext) ==> forall|i: int|
            0 <= i < plaintext@.len() ==> #[trigger] plaintext@[i] == ciphertext@[i] ^ xchacha20_keystream_byte(
                key@,
                nonce@,
                i,
            ),
{
    match chacha20poly1305::XChaCha20Poly1305::new_from_slice(key) {
        Err(_) => Err(PrimitiveFailure::KeyRejected),
        Ok(cipher) => match cipher.decrypt(chacha20poly1305::XNonce::from_slice(nonce), ciphertext) {
            Ok(plaintext) => Ok(plaintext),
            Err(_) => Err(PrimitiveFailure::Refused),
        },
    }
}

/// What `seal` and `open` return: `Refused` for a message that does not fit
/// the block limit, else `KeyRejected` for a key that is not 32 bytes long,
/// else the bytes of `expected`, else `Refused`.
pub open spec fn primitive_returns(
    out: Result<Vec<u8>, PrimitiveFailure>,
    fits: bool,
    key: Seq<u8>,
    expected: Option<Seq<u8>>,
) -> bool {
    if !fits {
        out matches Err(PrimitiveFailure::Refused)
    } else if key.len() != 32 {
        out matches Err(PrimitiveFailure::KeyRejected)
    } else {
        match expected {
            Some(bytes) => out matches Ok(v) && v@ == bytes,
            None => out matches Err(PrimitiveFailure::Refused),
        }
    }
}

/// Seals `plaintext` with the construction that `variant` names. The nonce
/// must have the variant's length.
///
/// A plaintext over the block limit is refused here, before the primitive
/// sees it.
pub fn seal(variant: Variant, key: &[u8], nonce: &[u8], plaintext: &[u8]) -> (out: Result<Vec<u8>, PrimitiveFailure>)
    requires
        nonce@.len() == nonce_length(variant),
    ensures
        primitive_returns(
            out,
            within_limit(plaintext@.len()),
            key@,
            Some(sealed(variant, key@, nonce@, plaintext@)),
        ),
{
    if plaintext.len() as u64 > MESSAGE_LIMIT {
        return Err(PrimitiveFailure::Refused);
    }
    let out = match variant {
        Variant::Standard => chacha20poly1305_seal(key, nonce, plaintext),
        Variant::Extended => xchacha20poly1305_seal(key, nonce, plaintext),
    };
    proof {
        if out is Ok {
            let ciphertext = out->Ok_0@;
            let body = masked(variant, key@, nonce@, plaintext@);
            assert(ciphertext.subrange(0, plaintext@.len() as int) =~= body);
            assert(ciphertext =~= sealed(variant, key@, nonce@, plaintext@));
        }
    }
    out
}

/// Opens `ciphertext` with the construction that `variant` names. The nonce
/// must have the variant's length.
///
/// A ciphertext whose bytes before the tag are over the block limit is
/// refused here, before the primitive sees it.
pub fn open(variant: Variant, key: &[u8], nonce: &[u8], ciphertext: &[u8]) -> (out: Result<Vec<u8>, PrimitiveFailure>)
    requires
        nonce@.len() == nonce_length(variant),
    ensures
        primitive_returns(
            out,
            ciphertext@.len() <= MESSAGE_LIMIT + 16,
            key@,
            opened(variant, key@, nonce@, ciphertext@),
        ),
{
    if ciphertext.len() as u64 > MESSAGE_LIMIT + 16 {
        return Err(PrimitiveFailure::Refused);
    }
    let out = match variant {
        Variant::Standard => chacha20poly1305_open(key, nonce, ciphertext),
        Variant::Extended => xchacha20poly1305_open(key, nonce, ciphertext),
    };
    proof {
        if key@.len() == 32 && ciphertext@.len() >= 16 {
            let cut = ciphertext@.len() - 16;
            let body = ciphertext@.subrange(0, cut);
            let last = ciphertext@.subrange(cut, ciphertext@.len() as int);
            let expected = tag(variant, key@, nonce@, body);
            if out is Ok {
                assert(last =~= expected);
                assert(out->Ok_0@ =~= masked(variant, key@, nonce@, body));
            } else if last == expected {
                match variant {
                    Variant::Standard => {
                        assert forall|i: int| 0 <= i < 16 implies ciphertext@[cut + i]
                            == #[trigger] chacha20_tag_byte(key@, nonce@, body, i) by {
                            assert(last[i] == ciphertext@[cut + i]);
                            assert(expected[i] == chacha20_tag_byte(key@, nonce@, body, i));
                        }
                    },
                    Variant::Extended => {
                        assert forall|i: int| 0 <= i < 16 implies ciphertext@[cut + i]
                            == #[trigger] xchacha20_tag_byte(key@, nonce@, body, i) by {
                            assert(last[i] == ciphertext@[cut + i]);
                            assert(expected[i] == xchacha20_tag_byte(key@, nonce@, body, i));
                        }
                    },
                }
                assert(false);
            }
        }
    }
    out
}

} // verus!

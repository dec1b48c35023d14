//! What holds of sealing and opening, for every key, nonce and message.

use vstd::prelude::*;
use crate::primitive::{masked, opened, sealed, tag, within_limit, Variant};

verus! {

/// XOR with the same byte twice gives the first byte back.
proof fn lemma_xor_twice(a: u8, b: u8)
    ensures
        (a ^ b) ^ b == a,
{
    assert((a ^ b) ^ b == a) by (bit_vector);
}

/// Masking is its own inverse.
pub proof fn lemma_masked_twice(variant: Variant, key: Seq<u8>, nonce: Seq<u8>, data: Seq<u8>)
    ensures
        masked(variant, key, nonce, masked(variant, key, nonce, data)) == data,
{
    let once = masked(variant, key, nonce, data);
    let twice = masked(variant, key, nonce, once);
    assert forall|i: int| 0 <= i < data.len() implies twice[i] == data[i] by {
        match variant {
            Variant::Standard => {
                lemma_xor_twice(data[i], crate::primitive::chacha20_keystream_byte(key, nonce, i));
            },
            Variant::Extended => {
                lemma_xor_twice(data[i], crate::primitive::xchacha20_keystream_byte(key, nonce, i));
            },
        }
    }
    assert(twice =~= data);
}

/// A ciphertext is its masked plaintext followed by the tag: cutting off the
/// last 16 bytes gives the one, and those bytes are the other.
pub proof fn lemma_sealed_parts(variant: Variant, key: Seq<u8>, nonce: Seq<u8>, plaintext: Seq<u8>)
    ensures
        sealed(variant, key, nonce, plaintext).len() == plaintext.len() + 16,
        sealed(variant, key, nonce, plaintext).subrange(0, plaintext.len() as int) == masked(
            variant,
            key,
            nonce,
            plaintext,
        ),
        sealed(variant, key, nonce, plaintext).subrange(
            plaintext.len() as int,
            plaintext.len() as int + 16,
        ) == tag(variant, key, nonce, masked(variant, key, nonce, plaintext)),
{
    let body = masked(variant, key, nonce, plaintext);
    let end = tag(variant, key, nonce, body);
    let whole = sealed(variant, key, nonce, plaintext);
    assert(whole.subrange(0, plaintext.len() as int) =~= body);
    assert(whole.subrange(plaintext.len() as int, plaintext.len() as int + 16) =~= end);
}

/// Round trip: opening what was sealed, under the same key and nonce, gives
/// the plaintext back.
pub proof fn lemma_round_trip(variant: Variant, key: Seq<u8>, nonce: Seq<u8>, plaintext: Seq<u8>)
    requires
        within_limit(plaintext.len()),
    ensures
        opened(variant, key, nonce, sealed(variant, key, nonce, plaintext)) == Some(plaintext),
{
    lemma_sealed_parts(variant, key, nonce, plaintext);
    lemma_masked_twice(variant, key, nonce, plaintext);
}

/// Expansion: a ciphertext is 16 bytes longer than its plaintext.
pub proof fn lemma_expansion(variant: Variant, key: Seq<u8>, nonce: Seq<u8>, plaintext: Seq<u8>)
    ensures
        sealed(variant, key, nonce, plaintext).len() == plaintext.len() + 16,
{
}

/// `bytes` with bit `bit` of byte `index` inverted.
pub open spec fn bit_flipped(bytes: Seq<u8>, index: int, bit: u8) -> Seq<u8> {
    bytes.update(index, bytes[index] ^ (1u8 << bit))
}

/// Inverting one bit changes the byte.
proof fn lemma_flip_changes(a: u8, bit: u8)
    requires
        bit < 8,
    ensures
        a ^ (1u8 << bit) != a,
{
    assert(bit < 8 ==> a ^ (1u8 << bit) != a) by (bit_vector);
}

/// Tamper detection: a ciphertext with one bit inverted does not open.
///
/// For a bit of the tag this holds always. For a bit of the masked message
/// it holds unless the changed message has the very tag of the unchanged
/// one; the construction makes such a pair hard to find, not impossible, so
/// that case is left out.
///
/// The premise speaks of tags, whose values no contract gives. A caller
/// cannot establish it ahead of a call: it learns that the tags differ only
/// from a `decrypt` that refused, which is the conclusion. The lemma is
/// here to say on which inputs detection rests, and on what.
pub proof fn lemma_tamper_detection(
    variant: Variant,
    key: Seq<u8>,
    nonce: Seq<u8>,
    plaintext: Seq<u8>,
    index: int,
    bit: u8,
)
    requires
        0 <= index < plaintext.len() + 16,
        bit < 8,
        index < plaintext.len() ==> tag(
            variant,
            key,
            nonce,
            bit_flipped(masked(variant, key, nonce, plaintext), index, bit),
        ) != tag(variant, key, nonce, masked(variant, key, nonce, plaintext)),
    ensures
        opened(
            variant,
            key,
            nonce,
            bit_flipped(sealed(variant, key, nonce, plaintext), index, bit),
        ) is None,
{
    let body = masked(variant, key, nonce, plaintext);
    let whole = sealed(variant, key, nonce, plaintext);
    let changed = bit_flipped(whole, index, bit);
    let cut = plaintext.len() as int;
    lemma_sealed_parts(variant, key, nonce, plaintext);
    lemma_flip_changes(whole[index], bit);
    if index < cut {
        assert(changed.subrange(0, cut) =~= bit_flipped(body, index, bit));
        assert(changed.subrange(cut, cut + 16) =~= whole.subrange(cut, cut + 16));
    } else {
        assert(changed.subrange(0, cut) =~= body);
        assert(changed.subrange(cut, cut + 16)[index - cut] != whole.subrange(cut, cut + 16)[index
            - cut]);
    }
}

/// Key isolation: what one key sealed does not open under another key.
///
/// This holds unless the other key gives the masked message the very tag
/// that the first key gave it; the construction makes such a pair of keys
/// hard to find, not impossible, so that case is left out.
///
/// The premise speaks of tags, whose values no contract gives. A caller
/// cannot establish it ahead of a call: it learns that the tags differ only
/// from a `decrypt` that refused, which is the conclusion. The lemma is
/// here to say on which inputs isolation rests, and on what.
pub proof fn lemma_key_isolation(
    variant: Variant,
    key: Seq<u8>,
    other_key: Seq<u8>,
    nonce: Seq<u8>,
    plaintext: Seq<u8>,
)
    requires
        tag(variant, other_key, nonce, masked(variant, key, nonce, plaintext)) != tag(
            variant,
            key,
            nonce,
            masked(variant, key, nonce, plaintext),
        ),
    ensures
        opened(variant, other_key, nonce, sealed(variant, key, nonce, plaintext)) is None,
{
    lemma_sealed_parts(variant, key, nonce, plaintext);
}

/// Two nonces give one plaintext two ciphertexts, under one key.
///
/// This holds unless both nonces mask the plaintext alike and tag it alike;
/// the construction makes such a pair of nonces hard to find, not
/// impossible, so that case is left out.
///
/// The premise speaks of the keystream and of tags, whose values no contract
/// gives. A caller cannot establish it ahead of a call: it learns it only by
/// comparing the two ciphertexts, which is the conclusion. The lemma is here
/// to say on which inputs the difference rests, and on what.
pub proof fn lemma_distinct_nonces(
    variant: Variant,
    key: Seq<u8>,
    nonce: Seq<u8>,
    other_nonce: Seq<u8>,
    plaintext: Seq<u8>,
)
    requires
        masked(variant, key, nonce, plaintext) != masked(variant, key, other_nonce, plaintext)
            || tag(variant, key, nonce, masked(variant, key, nonce, plaintext)) != tag(
            variant,
            key,
            other_nonce,
            masked(variant, key, other_nonce, plaintext),
        ),
    ensures
        sealed(variant, key, nonce, plaintext) != sealed(variant, key, other_nonce, plaintext),
{
    lemma_sealed_parts(variant, key, nonce, plaintext);
    lemma_sealed_parts(variant, key, other_nonce, plaintext);
}

} // verus!

//! Random bytes from the operating system's entropy source.
//!
//! Every call asks the source anew; nothing is cached or seeded, and a
//! failure is reported at once, never made up for from a weaker source.

use vstd::prelude::*;
use crate::error::{message_head, CryptoError, ErrorKind};

verus! {

/// The error of `getrandom::getrandom`. Nothing is read from it here but the
/// text it prints.
#[verifier::external_type_specification]
#[verifier::external_body]
pub struct ExEntropyError(getrandom::Error);

/// Fills `buffer` with `getrandom::getrandom`.
///
/// Trusted: the call writes into the buffer it is given and never resizes
/// it, and for an empty buffer it succeeds without asking the system.
/// Nothing is claimed of the bytes.
#[verifier::external_body]
fn fill_from_os(buffer: &mut Vec<u8>) -> (filled: Result<(), getrandom::Error>)
    ensures
        final(buffer)@.len() == old(buffer)@.len(),
        old(buffer)@.len() == 0 ==> filled is Ok,
{
    getrandom::getrandom(buffer)
}

/// The text that `getrandom::Error` prints through `Display`.
///
/// Trusted for nothing: for an error of the system the text is the system's
/// own.
#[verifier::external_body]
fn entropy_detail(error: &getrandom::Error) -> String {
    error.to_string()
}

/// What random bytes are asked for.
#[derive(Clone, Copy, Debug, PartialEq, Eq, Structural)]
pub enum RandomPurpose {
    /// Bytes of any use.
    Bytes,
    /// A secret key.
    Key,
    /// A nonce.
    Nonce,
}

/// The text that the message of an entropy failure starts with.
pub open spec fn entropy_head(purpose: RandomPurpose) -> Seq<char> {
    match purpose {
        RandomPurpose::Bytes => "Failed to generate random bytes: "@,
        RandomPurpose::Key => "Failed to generate random key: "@,
        RandomPurpose::Nonce => "Failed to generate random nonce: "@,
    }
}

/// The head of an entropy failure is the head of its kind, then what was
/// asked for.
proof fn lemma_entropy_head(purpose: RandomPurpose)
    ensures
        entropy_head(purpose) == message_head(ErrorKind::EntropySourceError) + match purpose {
            RandomPurpose::Bytes => "bytes: "@,
            RandomPurpose::Key => "key: "@,
            RandomPurpose::Nonce => "nonce: "@,
        },
{
    reveal_strlit("Failed to generate random ");
    reveal_strlit("bytes: ");
    reveal_strlit("key: ");
    reveal_strlit("nonce: ");
    reveal_strlit("Failed to generate random bytes: ");
    reveal_strlit("Failed to generate random key: ");
    reveal_strlit("Failed to generate random nonce: ");
    assert("Failed to generate random bytes: "@ =~= "Failed to generate random "@ + "bytes: "@);
    assert("Failed to generate random key: "@ =~= "Failed to generate random "@ + "key: "@);
    assert("Failed to generate random nonce: "@ =~= "Failed to generate random "@ + "nonce: "@);
}

/// What a request for random bytes returns, for each thing the entropy
/// source may say: the filled buffer, or an `EntropySourceError` whose
/// message names what was asked for and ends in the source's own words.
pub fn random_outcome(
    bytes: Vec<u8>,
    filled: Result<(), getrandom::Error>,
    purpose: RandomPurpose,
) -> (out: Result<Vec<u8>, CryptoError>)
    ensures
        match filled {
            Ok(_) => out matches Ok(same) && same == bytes,
            Err(_) => out matches Err(e) && e.kind == ErrorKind::EntropySourceError
                && entropy_head(purpose).is_prefix_of(e.message@),
        },
{
    match filled {
        Ok(_) => Ok(bytes),
        Err(error) => {
            let asked: &str = match purpose {
                RandomPurpose::Bytes => "bytes: ",
                RandomPurpose::Key => "key: ",
                RandomPurpose::Nonce => "nonce: ",
            };
            let tail = asked.to_owned().concat(entropy_detail(&error).as_str());
            let e = CryptoError::with_detail(ErrorKind::EntropySourceError, tail.as_str());
            proof {
                lemma_entropy_head(purpose);
                assert(e.message@.subrange(0, entropy_head(purpose).len() as int) =~= entropy_head(
                    purpose,
                ));
            }
            Err(e)
        },
    }
}

/// Generation of keys and other random byte strings.
pub struct CryptoUtils;

impl CryptoUtils {
    /// `size` bytes from the entropy source, asked for as `purpose`.
    ///
    /// A request for no bytes always succeeds. Any other may fail with
    /// `EntropySourceError`, where the source does; the message then names
    /// the purpose.
    pub fn random_for(purpose: RandomPurpose, size: usize) -> (out: Result<Vec<u8>, CryptoError>)
        ensures
            size == 0 ==> out is Ok,
            match out {
                Ok(bytes) => bytes@.len() == size,
                Err(e) => e.kind == ErrorKind::EntropySourceError && entropy_head(
                    purpose,
                ).is_prefix_of(e.message@),
            },
    {
        let mut bytes = vec![0u8; size];
        let filled = fill_from_os(&mut bytes);
        random_outcome(bytes, filled, purpose)
    }

    /// `size` bytes from the entropy source.
    ///
    /// A request for no bytes always succeeds. Any other may fail with
    /// `EntropySourceError`, where the source does.
    pub fn random_bytes(size: usize) -> (out: Result<Vec<u8>, CryptoError>)
        ensures
            size == 0 ==> out is Ok,
            match out {
                Ok(bytes) => bytes@.len() == size,
                Err(e) => e.kind == ErrorKind::EntropySourceError && entropy_head(
                    RandomPurpose::Bytes,
                ).is_prefix_of(e.message@),
            },
    {
        CryptoUtils::random_for(RandomPurpose::Bytes, size)
    }
}

} // verus!

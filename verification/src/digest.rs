//! SHA-256: of one message, and of a message that comes in pieces.

use crate::bytes::utf8;
use crate::notation::{all_lower_hex, hex_text, lemma_hex_text, to_hex};
use sha2::{Digest, Sha256};
use vstd::prelude::*;

verus! {

/// The SHA-256 digest of a message, as `sha2::Sha256` computes it.
pub uninterp spec fn sha256_of(message: Seq<u8>) -> Seq<u8>;

/// The bytes that a `sha2::Sha256` has taken in so far, in the order in which it took them in.
pub uninterp spec fn taken_in(hasher: Sha256) -> Seq<u8>;

/// The running hasher of the `sha2` crate.
#[verifier::external_type_specification]
#[verifier::external_body]
pub struct ExSha256(sha2::Sha256);

/// Calls `sha2::Sha256::digest`: the digest is 32 bytes and depends on the message alone. The hash
/// counts the bits of a message in 64 bits, which is enough for every slice that fits in memory.
#[verifier::external_body]
pub(crate) fn sha256(message: &[u8]) -> (digest: Vec<u8>)
    ensures
        digest@ == sha256_of(message@),
        digest@.len() == 32,
{
    Sha256::digest(message).as_slice().to_vec()
}

/// Calls `sha2::Sha256::new`: a hasher that has taken in nothing.
#[verifier::external_body]
pub(crate) fn new_hasher() -> (hasher: Sha256)
    ensures
        taken_in(hasher) == Seq::<u8>::empty(),
{
    Sha256::new()
}

/// Calls `sha2::Sha256::update`: the hasher takes in `data` behind what it took in before. The hash
/// counts bits in 64 bits, so that a message stays below 2^61 bytes.
#[verifier::external_body]
pub(crate) fn update_hasher(hasher: &mut Sha256, data: &[u8])
    requires
        taken_in(*old(hasher)).len() + data@.len() < 0x2000_0000_0000_0000,
    ensures
        taken_in(*final(hasher)) == taken_in(*old(hasher)) + data@,
{
    hasher.update(data);
}

/// Calls `sha2::Sha256::finalize`: the digest of what the hasher took in.
#[verifier::external_body]
pub(crate) fn finish_hasher(hasher: Sha256) -> (digest: Vec<u8>)
    requires
        taken_in(hasher).len() < 0x2000_0000_0000_0000,
    ensures
        digest@ == sha256_of(taken_in(hasher)),
        digest@.len() == 32,
{
    hasher.finalize().as_slice().to_vec()
}

/// The digest of a message in lowercase hexadecimal.
pub open spec fn digest_text(message: Seq<u8>) -> Seq<char> {
    hex_text(sha256_of(message))
}

/// The digest of `message`, written out.
pub fn digest_hex(message: &[u8]) -> (text: String)
    ensures
        text@ == digest_text(message@),
        utf8(text@).len() == 64,
        all_lower_hex(utf8(text@)),
{
    let digest = sha256(message);
    proof {
        lemma_hex_text(digest@);
    }
    to_hex(digest.as_slice())
}

/// A message for a digest that comes in pieces.
pub struct MessageHasher {
    hasher: Sha256,
    length: u64,
}

/// The length that a hashed message stays below.
pub const MESSAGE_LIMIT: u64 = 0x2000_0000_0000_0000;

impl MessageHasher {
    #[verifier::type_invariant]
    spec fn counts(self) -> bool {
        &&& self.length == taken_in(self.hasher).len()
        &&& self.length < MESSAGE_LIMIT
    }

    /// What the message holds so far.
    pub closed spec fn message(self) -> Seq<u8> {
        taken_in(self.hasher)
    }

    pub fn new() -> (empty: Self)
        ensures
            empty.message() == Seq::<u8>::empty(),
    {
        MessageHasher { hasher: new_hasher(), length: 0 }
    }

    /// How many bytes the message holds.
    pub fn len(&self) -> (length: u64)
        ensures
            length == self.message().len(),
            length < MESSAGE_LIMIT,
    {
        proof {
            use_type_invariant(self);
        }
        self.length
    }

    /// Adds bytes to the message.
    pub fn update(self, data: &[u8]) -> (longer: Self)
        requires
            self.message().len() + data@.len() < MESSAGE_LIMIT,
        ensures
            longer.message() == self.message() + data@,
    {
        proof {
            use_type_invariant(&self);
        }
        let MessageHasher { hasher, length } = self;
        let mut hasher = hasher;
        update_hasher(&mut hasher, data);
        MessageHasher { hasher, length: length + data.len() as u64 }
    }

    /// The digest of the message, written out.
    pub fn finish(self) -> (text: String)
        ensures
            text@ == digest_text(self.message()),
            utf8(text@).len() == 64,
            all_lower_hex(utf8(text@)),
    {
        proof {
            use_type_invariant(&self);
        }
        let digest = finish_hasher(self.hasher);
        proof {
            lemma_hex_text(digest@);
        }
        to_hex(digest.as_slice())
    }
}

} // verus!

//! Discriminators for program accounts, events and instructions: either given bytes or a prefix
//! of a 256-bit hash of some input.

use vstd::prelude::*;

verus! {

/// The Keccak-256 digest of `input`.
pub uninterp spec fn keccak256_digest(input: Seq<u8>) -> Seq<u8>;

/// The SHA-256 digest of `input`.
pub uninterp spec fn sha256_digest(input: Seq<u8>) -> Seq<u8>;

/// The SHA3-256 digest of `input`.
pub uninterp spec fn sha3_256_digest(input: Seq<u8>) -> Seq<u8>;

/// Keccak-256 of `input`, computed by `const_crypto::sha3::Keccak256`. The digest is named,
/// not stated: the contract claims only that the result is a function of the input bytes.
#[verifier::external_body]
fn keccak256(input: &[u8]) -> (r: [u8; 32])
    ensures
        r@ == keccak256_digest(input@),
{
    const_crypto::sha3::Keccak256::new().update(input).finalize()
}

/// SHA-256 of `input`, computed by `const_crypto::sha2::Sha256`. The digest is named, not
/// stated: the contract claims only that the result is a function of the input bytes.
#[verifier::external_body]
fn sha256(input: &[u8]) -> (r: [u8; 32])
    ensures
        r@ == sha256_digest(input@),
{
    const_crypto::sha2::Sha256::new().update(input).finalize()
}

/// SHA3-256 of `input`, computed by `const_crypto::sha3::Sha3_256`. The digest is named, not
/// stated: the contract claims only that the result is a function of the input bytes.
#[verifier::external_body]
fn sha3_256(input: &[u8]) -> (r: [u8; 32])
    ensures
        r@ == sha3_256_digest(input@),
{
    const_crypto::sha3::Sha3_256::new().update(input).finalize()
}

/// The first `len` bytes of `digest`, padded on the right with zeros when `len` exceeds the
/// digest's length.
pub open spec fn prefix_padded(digest: Seq<u8>, len: nat) -> Seq<u8> {
    Seq::new(len, |i: int| if i < digest.len() { digest[i] } else { 0u8 })
}

/// A discriminator: either given bytes or generated from the 256-bit hash of some input (only
/// Keccak, SHA-256 and SHA3-256 are supported). Discriminators tell serialized accounts,
/// serialized events and instructions (as selectors) apart.
#[derive(Clone, Copy, Debug)]
pub enum Discriminator<'a, const LEN: usize> {
    /// Given bytes.
    Defined([u8; LEN]),
    /// Using the Keccak-256 hasher.
    Keccak(&'a [u8]),
    /// Using the SHA-256 hasher. Discriminators of anchor-lang and spl-discriminator are the
    /// first 8 bytes of this kind.
    Sha2(&'a [u8]),
    /// Using the SHA3-256 hasher.
    Sha3(&'a [u8]),
}

impl<'a, const LEN: usize> Discriminator<'a, LEN> {
    /// The bytes of this discriminator.
    pub open spec fn spec_bytes(self) -> Seq<u8> {
        match self {
            Discriminator::Defined(disc) => disc@,
            Discriminator::Keccak(input) => prefix_padded(keccak256_digest(input@), LEN as nat),
            Discriminator::Sha2(input) => prefix_padded(sha256_digest(input@), LEN as nat),
            Discriminator::Sha3(input) => prefix_padded(sha3_256_digest(input@), LEN as nat),
        }
    }

    /// The digest this discriminator is taken from, if it is hashed, is 32 bytes long.
    pub open spec fn digest_len_is_32(self) -> bool {
        match self {
            Discriminator::Defined(_) => true,
            Discriminator::Keccak(input) => keccak256_digest(input@).len() == 32,
            Discriminator::Sha2(input) => sha256_digest(input@).len() == 32,
            Discriminator::Sha3(input) => sha3_256_digest(input@).len() == 32,
        }
    }

    /// The bytes of this discriminator. For a hash, these are its first `LEN` bytes; nothing
    /// prevents `LEN` from exceeding the digest's 32 bytes, in which case the output is padded on
    /// the right with zeros.
    pub fn to_bytes(self) -> (r: [u8; LEN])
        ensures
            r@ == self.spec_bytes(),
            self.digest_len_is_32(),
    {
        let digest = match self {
            Discriminator::Defined(disc) => {
                return disc;
            },
            Discriminator::Keccak(input) => keccak256(input),
            Discriminator::Sha2(input) => sha256(input),
            Discriminator::Sha3(input) => sha3_256(input),
        };
        digest_prefix(digest)
    }
}

/// The first `LEN` bytes of a 32-byte digest, padded on the right with zeros when `LEN` exceeds
/// 32.
pub fn digest_prefix<const LEN: usize>(digest: [u8; 32]) -> (r: [u8; LEN])
    ensures
        r@ == prefix_padded(digest@, LEN as nat),
{
    let mut inner: [u8; LEN] = [0u8; LEN];
    let mut i: usize = 0;
    while i < LEN && i < 32
        invariant
            i <= LEN,
            i <= 32,
            inner@.len() == LEN,
            digest@.len() == 32,
            forall|k: int| 0 <= k < i ==> inner@[k] == digest@[k],
            forall|k: int| i <= k < LEN ==> inner@[k] == 0u8,
        decreases LEN - i,
    {
        inner[i] = digest[i];
        i = i + 1;
    }
    assert(inner@ =~= prefix_padded(digest@, LEN as nat));
    inner
}

/// The discriminator of a type: a fixed array of bytes, often generated with [Discriminator].
pub trait Discriminate<const LEN: usize> {
    /// The bytes that mark serialized values of the type.
    const DISCRIMINATOR: [u8; LEN];
}

impl<const LEN: usize, T: Discriminate<LEN>> Discriminate<LEN> for Box<T> {
    const DISCRIMINATOR: [u8; LEN] = T::DISCRIMINATOR;
}

/// Hashed discriminators of different lengths agree: the shorter one is a prefix of the longer
/// one.
pub proof fn lemma_discriminator_prefix<const SHORT: usize, const LONG: usize>(input: &[u8])
    requires
        SHORT <= LONG,
    ensures
        Discriminator::<SHORT>::Keccak(input).spec_bytes() =~= Discriminator::<LONG>::Keccak(
            input,
        ).spec_bytes().take(SHORT as int),
        Discriminator::<SHORT>::Sha2(input).spec_bytes() =~= Discriminator::<LONG>::Sha2(
            input,
        ).spec_bytes().take(SHORT as int),
        Discriminator::<SHORT>::Sha3(input).spec_bytes() =~= Discriminator::<LONG>::Sha3(
            input,
        ).spec_bytes().take(SHORT as int),
{
}

/// A hashed discriminator longer than its 32-byte digest holds the whole digest followed by
/// zeros; a shorter one holds the digest's first bytes.
pub proof fn lemma_discriminator_zero_padding<const LEN: usize>(d: Discriminator<LEN>)
    requires
        d.digest_len_is_32(),
        !(d is Defined),
    ensures
        d.spec_bytes().len() == LEN,
        forall|i: int| 32 <= i < LEN ==> #[trigger] d.spec_bytes()[i] == 0u8,
        forall|i: int|
            0 <= i < LEN && i < 32 ==> #[trigger] d.spec_bytes()[i] == match d {
                Discriminator::Keccak(input) => keccak256_digest(input@)[i],
                Discriminator::Sha2(input) => sha256_digest(input@)[i],
                Discriminator::Sha3(input) => sha3_256_digest(input@)[i],
                Discriminator::Defined(disc) => disc@[i],
            },
{
}

} // verus!

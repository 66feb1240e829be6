//! Derivation of per-call pseudo-random bytes from an entropy seed.
use vstd::prelude::*;
use vstd::bytes::{spec_u32_to_le_bytes, spec_u64_to_le_bytes};
use parity_scale_codec::Encode;
use crate::AccountId;

verus! {

/// What the host hands in for one call: the randomness source's current
/// seed and the index of the call within its block, which keeps two calls
/// of one block from drawing the same bytes.
#[derive(Clone, Copy, Debug, PartialEq, Eq)]
pub struct Entropy {
    pub seed: [u8; 32],
    pub extrinsic_index: Option<u32>,
}

/// SCALE encoding of an optional `u32`: a zero tag, or a one tag followed by
/// the value in little-endian order.
pub open spec fn option_u32_encoding(v: Option<u32>) -> Seq<u8> {
    match v {
        None => seq![0u8],
        Some(x) => seq![1u8] + spec_u32_to_le_bytes(x),
    }
}

/// SCALE encoding of the triple (seed, actor, call index) that is hashed
/// into an actor's random bytes.
pub open spec fn seed_payload(seed: Seq<u8>, who: AccountId, index: Option<u32>) -> Seq<u8> {
    seed + spec_u64_to_le_bytes(who) + option_u32_encoding(index)
}

/// The 128-bit BLAKE2b digest of `data`.
pub uninterp spec fn blake2_128_of(data: Seq<u8>) -> Seq<u8>;

/// The random bytes drawn for `who` under `entropy`.
pub open spec fn random_value_of(entropy: Entropy, who: AccountId) -> Seq<u8> {
    blake2_128_of(seed_payload(entropy.seed@, who, entropy.extrinsic_index))
}

/// Relies on parity_scale_codec's `Encode` for a tuple of a byte array, a
/// `u64` and an `Option<u32>`: the parts' encodings one after the other,
/// the array as its bytes, the integer little-endian, the option as a tag
/// byte and its value.
#[verifier::external_body]
fn encode_seed_payload(seed: &[u8; 32], who: AccountId, index: Option<u32>) -> (r: Vec<u8>)
    ensures
        r@ == seed_payload(seed@, who, index),
{
    (*seed, who, index).encode()
}

/// Relies on sp_io::hashing::blake2_128: the 16-byte BLAKE2b digest of the
/// data, a function of the data alone.
#[verifier::external_body]
fn blake2_128(data: &Vec<u8>) -> (r: [u8; 16])
    ensures
        r@ == blake2_128_of(data@),
{
    sp_io::hashing::blake2_128(data.as_slice())
}

/// Draws 16 bytes for `who`: the digest of the encoded seed, actor and call
/// index.
pub fn random_value(entropy: &Entropy, who: AccountId) -> (r: [u8; 16])
    ensures
        r@ == random_value_of(*entropy, who),
{
    let payload = encode_seed_payload(&entropy.seed, who, entropy.extrinsic_index);
    blake2_128(&payload)
}

} // verus!

//! Genetic mixing of two genomes under a selector.
use vstd::prelude::*;

verus! {

/// Number of bytes in a genome.
pub const DNA_LEN: usize = 16;

/// Whether bit `b` of `x` is set.
pub open spec fn bit_set(x: u8, b: u8) -> bool {
    (x >> b) & 1u8 == 1u8
}

/// The byte mixed from `dna1` and `dna2`: each bit comes from `dna2` where
/// the selector's bit is set and from `dna1` where it is clear.
pub open spec fn mix_byte(dna1: u8, dna2: u8, selector: u8) -> u8 {
    (!selector & dna1) | (selector & dna2)
}

/// The genome mixed byte by byte from two parents under a selector.
pub open spec fn mix_genome(dna1: Seq<u8>, dna2: Seq<u8>, selector: Seq<u8>) -> Seq<u8> {
    Seq::new(DNA_LEN as nat, |i: int| mix_byte(dna1[i], dna2[i], selector[i]))
}

/// Each bit of a mixed byte is the second parent's bit where the selector's
/// bit is set, and the first parent's bit where it is clear.
pub proof fn lemma_mix_byte_bits(dna1: u8, dna2: u8, selector: u8, b: u8)
    by (bit_vector)
    requires
        b < 8,
    ensures
        bit_set(mix_byte(dna1, dna2, selector), b) == if bit_set(selector, b) {
            bit_set(dna2, b)
        } else {
            bit_set(dna1, b)
        },
{
}

/// Each bit of each byte of a mixed genome comes from the second parent
/// where the selector's bit is set, and from the first parent elsewhere.
pub proof fn lemma_mix_genome_bits(dna1: Seq<u8>, dna2: Seq<u8>, selector: Seq<u8>)
    ensures
        forall|i: int, b: u8|
            0 <= i < DNA_LEN && b < 8 ==> #[trigger] bit_set(
                mix_genome(dna1, dna2, selector)[i],
                b,
            ) == if bit_set(selector[i], b) {
                bit_set(dna2[i], b)
            } else {
                bit_set(dna1[i], b)
            },
{
    assert forall|i: int, b: u8| 0 <= i < DNA_LEN && b < 8 implies #[trigger] bit_set(
        mix_genome(dna1, dna2, selector)[i],
        b,
    ) == if bit_set(selector[i], b) {
        bit_set(dna2[i], b)
    } else {
        bit_set(dna1[i], b)
    } by {
        lemma_mix_byte_bits(dna1[i], dna2[i], selector[i], b);
    }
}

/// Mixes one byte of two genomes under one byte of the selector.
pub fn combine_dna(dna1: u8, dna2: u8, selector: u8) -> (r: u8)
    ensures
        r == mix_byte(dna1, dna2, selector),
{
    (!selector & dna1) | (selector & dna2)
}

/// Mixes two genomes byte by byte under a selector.
pub fn combine_genome(dna1: &[u8; 16], dna2: &[u8; 16], selector: &[u8; 16]) -> (r: [u8; 16])
    ensures
        r@ == mix_genome(dna1@, dna2@, selector@),
{
    let mut new_dna = [0u8; 16];
    for i in 0..DNA_LEN
        invariant
            new_dna@.len() == DNA_LEN,
            forall|j: int| 0 <= j < i ==> new_dna@[j] == mix_byte(dna1@[j], dna2@[j], selector@[j]),
    {
        new_dna[i] = combine_dna(dna1[i], dna2[i], selector[i]);
    }
    assert(new_dna@ =~= mix_genome(dna1@, dna2@, selector@));
    new_dna
}

} // verus!

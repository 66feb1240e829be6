//! Asset registries: a first-writer-wins registry of byte fingerprints
//! (proof of existence) and a registry of creatures that can be created,
//! bred, listed for sale and sold.
use vstd::prelude::*;

pub mod dna;
pub mod random;
pub mod ledger;
pub mod kitties;
pub mod poe;

verus! {

/// Identity of the actor on whose behalf an operation runs.
pub type AccountId = u64;

/// Height of the block in which an operation runs.
pub type BlockNumber = u64;

/// Amount of funds held by the ledger.
pub type Balance = u64;

/// Identifier of a creature.
pub type KittyIndex = u32;

} // verus!

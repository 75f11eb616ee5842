//! An incremental, homomorphic state-fingerprinting accumulator (a "lattice
//! hash"): each record is mapped to a fixed-width lattice element, and the
//! whole collection is committed to by the lane-wise group sum of those
//! elements, so that inserting or removing one record costs O(1) group
//! operations instead of rehashing the collection.

use vstd::prelude::*;

pub mod account;
pub mod checksum;
pub mod expand;
pub mod lanes;
pub mod lthash;

verus! {

/// Width in bytes of a lattice element and of the accumulator state.
pub const LTHASH_LEN: usize = 2048;

/// Width in bytes of one digest block of the underlying cryptographic hash.
pub const DIGEST_LEN: usize = 32;

/// How many digest blocks make up one lattice element.
pub const CHAIN_BLOCKS: usize = 64;

/// How many bytes of the state's digest the short checksum keeps.
pub const CHECKSUM_LEN: usize = 16;

} // verus!

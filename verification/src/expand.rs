//! The expander: stretches the 32-byte digest of an input byte stream into a
//! `LTHASH_LEN`-byte lattice element by hash chaining. The first block is the
//! digest of the input; every further block is the digest of the block before
//! it; the blocks are concatenated until the element is full.

use vstd::prelude::*;
use crate::{CHAIN_BLOCKS, DIGEST_LEN};

verus! {

/// The 32-byte digest that the underlying cryptographic hash (BLAKE3)
/// assigns to a byte sequence; a function of those bytes alone.
pub uninterp spec fn blake3_of(input: Seq<u8>) -> Seq<u8>;

/// Relies on blake3::hash: a pure function of the input bytes with a fixed
/// 32-byte output, equal for equal inputs on every machine.
#[verifier::external_body]
pub(crate) fn blake3_digest(input: &[u8]) -> (r: Vec<u8>)
    ensures
        r@ == blake3_of(input@),
        r@.len() == DIGEST_LEN,
{
    blake3::hash(input).as_bytes().to_vec()
}

/// The digest block reached from `d0` after `k` further hash applications:
/// `iter_digest(d0, 0) == d0`, `iter_digest(d0, k + 1) == H(iter_digest(d0, k))`.
pub open spec fn iter_digest(d0: Seq<u8>, k: nat) -> Seq<u8>
    decreases k,
{
    if k == 0 {
        d0
    } else {
        blake3_of(iter_digest(d0, (k - 1) as nat))
    }
}

/// The concatenation of the first `k` blocks of the hash chain rooted at `d0`:
/// `d0 ++ H(d0) ++ H(H(d0)) ++ ...`.
pub open spec fn chain_bytes(d0: Seq<u8>, k: nat) -> Seq<u8>
    decreases k,
{
    if k == 0 {
        Seq::empty()
    } else {
        chain_bytes(d0, (k - 1) as nat) + iter_digest(d0, (k - 1) as nat)
    }
}

/// The lattice element of an input byte stream: the first `CHAIN_BLOCKS`
/// blocks of the hash chain rooted at the input's digest.
pub open spec fn expand_spec(input: Seq<u8>) -> Seq<u8> {
    chain_bytes(blake3_of(input), CHAIN_BLOCKS as nat)
}

/// Law: expansion is deterministic. Two expansions of byte-identical inputs
/// are byte-identical, however and whenever each is computed.
pub proof fn lemma_expand_deterministic(a: Seq<u8>, b: Seq<u8>)
    requires
        a == b,
    ensures
        expand_spec(a) == expand_spec(b),
{
}

} // verus!

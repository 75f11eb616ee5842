//! The lattice hash itself. `LtHash` collects the canonical byte stream of
//! one record and expands it into a lattice element (`new` / `init` /
//! `append` / `fini`); the associated functions `identity`, `add`, `sub` and
//! `out` are the accumulator operations over whole `LTHASH_LEN`-byte states.

use vstd::prelude::*;
use crate::{CHAIN_BLOCKS, CHECKSUM_LEN, DIGEST_LEN, LTHASH_LEN};
use crate::expand::{blake3_digest, blake3_of, chain_bytes, expand_spec, iter_digest};
use crate::checksum::{checksum_spec, hex_lower, hex_of};
use crate::lanes::{add_lanes, byte_add, byte_sub, identity_spec, sub_lanes};

verus! {

/// An expander in progress: the bytes fed so far, waiting to be stretched
/// into a lattice element. Its view is that byte stream.
pub struct LtHash {
    data: Vec<u8>,
}

impl View for LtHash {
    type V = Seq<u8>;

    closed spec fn view(&self) -> Seq<u8> {
        self.data@
    }
}

impl LtHash {
    /// A fresh expander that has been fed nothing.
    pub fn new() -> (r: Self)
        ensures
            r@ == Seq::<u8>::empty(),
    {
        Self { data: Vec::new() }
    }

    /// Resets the expander to having been fed nothing.
    pub fn init(&mut self)
        ensures
            final(self)@ == Seq::<u8>::empty(),
    {
        self.data = Vec::new();
    }

    /// Feeds one more chunk; order matters, the element is a stream digest.
    pub fn append(&mut self, data: &[u8])
        ensures
            final(self)@ == old(self)@ + data@,
    {
        let mut i: usize = 0;
        while i < data.len()
            invariant
                i <= data@.len(),
                self.data@ == old(self).data@ + data@.take(i as int),
            decreases data@.len() - i,
        {
            self.data.push(data[i]);
            proof {
                assert(old(self).data@ + data@.take(i + 1)
                    =~= (old(self).data@ + data@.take(i as int)).push(data@[i as int]));
            }
            i = i + 1;
        }
        proof {
            assert(old(self)@ + data@ =~= old(self)@ + data@.take(data@.len() as int));
        }
    }

    /// Stretches the fed bytes into their lattice element: the digest of the
    /// stream, then a hash chain of digests, concatenated and cut to exactly
    /// `LTHASH_LEN` bytes — the same element for the same bytes, always.
    pub fn fini(&mut self) -> (r: Vec<u8>)
        ensures
            r@ == expand_spec(old(self)@),
            r@.len() == LTHASH_LEN,
            final(self)@ == old(self)@,
    {
        let mut full_output: Vec<u8> = Vec::new();
        let mut digest = blake3_digest(self.data.as_slice());
        let ghost d0 = blake3_of(old(self)@);
        let ghost mut k: nat = 0;
        while full_output.len() < LTHASH_LEN
            invariant
                self@ == old(self)@,
                digest@ == iter_digest(d0, k),
                digest@.len() == DIGEST_LEN,
                full_output@ == chain_bytes(d0, k),
                full_output@.len() == k * DIGEST_LEN,
                k <= CHAIN_BLOCKS,
            decreases LTHASH_LEN - full_output@.len(),
        {
            let mut j: usize = 0;
            while j < digest.len()
                invariant
                    j <= digest@.len(),
                    full_output@ == chain_bytes(d0, k) + digest@.take(j as int),
                    digest@ == iter_digest(d0, k),
                    digest@.len() == DIGEST_LEN,
                decreases digest@.len() - j,
            {
                full_output.push(digest[j]);
                proof {
                    assert(chain_bytes(d0, k) + digest@.take(j + 1)
                        =~= (chain_bytes(d0, k) + digest@.take(j as int)).push(digest@[j as int]));
                }
                j = j + 1;
            }
            proof {
                assert(digest@.take(digest@.len() as int) =~= digest@);
                assert(chain_bytes(d0, k + 1) == chain_bytes(d0, k) + iter_digest(d0, k));
            }
            digest = blake3_digest(digest.as_slice());
            proof {
                k = k + 1;
            }
        }
        proof {
            assert(k == CHAIN_BLOCKS);
        }
        full_output.truncate(LTHASH_LEN);
        proof {
            assert(full_output@ =~= chain_bytes(d0, CHAIN_BLOCKS as nat));
        }
        full_output
    }

    /// The group identity: the all-zero state of width `LTHASH_LEN`.
    pub fn identity() -> (r: Vec<u8>)
        ensures
            r@ == identity_spec(),
            r@.len() == LTHASH_LEN,
    {
        let mut v: Vec<u8> = Vec::new();
        while v.len() < LTHASH_LEN
            invariant
                v@.len() <= LTHASH_LEN,
                forall|i: int| 0 <= i < v@.len() ==> v@[i] == 0u8,
            decreases LTHASH_LEN - v@.len(),
        {
            v.push(0u8);
        }
        proof {
            assert(v@ =~= identity_spec());
        }
        v
    }

    /// Lane-wise group addition of two `LTHASH_LEN`-byte states: each byte
    /// lane is summed mod 256, with no carry between lanes.
    pub fn add(a: &[u8], b: &[u8]) -> (r: Vec<u8>)
        requires
            a@.len() == LTHASH_LEN,
            b@.len() == LTHASH_LEN,
        ensures
            r@ == add_lanes(a@, b@),
            r@.len() == LTHASH_LEN,
    {
        let mut r: Vec<u8> = Vec::new();
        let mut i: usize = 0;
        while i < a.len()
            invariant
                a@.len() == LTHASH_LEN,
                b@.len() == LTHASH_LEN,
                i <= LTHASH_LEN,
                r@.len() == i,
                forall|j: int| 0 <= j < i ==> r@[j] == byte_add(a@[j], b@[j]),
            decreases a@.len() - i,
        {
            let x = a[i];
            let y = b[i];
            r.push(x.wrapping_add(y));
            i = i + 1;
        }
        proof {
            assert(r@ =~= add_lanes(a@, b@));
        }
        r
    }

    /// Lane-wise group subtraction: the inverse of `add`, each byte lane
    /// subtracted mod 256.
    pub fn sub(a: &[u8], b: &[u8]) -> (r: Vec<u8>)
        requires
            a@.len() == LTHASH_LEN,
            b@.len() == LTHASH_LEN,
        ensures
            r@ == sub_lanes(a@, b@),
            r@.len() == LTHASH_LEN,
    {
        let mut r: Vec<u8> = Vec::new();
        let mut i: usize = 0;
        while i < a.len()
            invariant
                a@.len() == LTHASH_LEN,
                b@.len() == LTHASH_LEN,
                i <= LTHASH_LEN,
                r@.len() == i,
                forall|j: int| 0 <= j < i ==> r@[j] == byte_sub(a@[j], b@[j]),
            decreases a@.len() - i,
        {
            let x = a[i];
            let y = b[i];
            r.push(x.wrapping_sub(y));
            i = i + 1;
        }
        proof {
            assert(r@ =~= sub_lanes(a@, b@));
        }
        r
    }

    /// The short checksum of a state: the first `CHECKSUM_LEN` bytes of the
    /// state's digest, as 32 lowercase hex characters.
    pub fn out(hash: &[u8]) -> (r: String)
        ensures
            r@ == hex_of(checksum_spec(hash@)),
            r@.len() == 2 * CHECKSUM_LEN,
    {
        let truncated = blake3_digest(hash);
        let prefix = vstd::slice::slice_subrange(truncated.as_slice(), 0, CHECKSUM_LEN);
        hex_lower(prefix)
    }
}

} // verus!

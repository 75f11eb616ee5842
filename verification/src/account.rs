//! The one record type this accumulator is used over: an account-like record
//! and its canonicalization. The canonical byte stream — balance as 8 bytes
//! little-endian, then the data payload, the executable flag byte, the 32
//! owner bytes and the public-key string's raw bytes, in that fixed order —
//! is part of the format contract: changing it changes every derived hash.

use vstd::prelude::*;
use crate::LTHASH_LEN;
use crate::expand::expand_spec;
use crate::lanes::identity_spec;
use crate::lthash::LtHash;

verus! {

/// An account-like record: a 64-bit balance, an opaque data payload, an
/// executable flag byte, a 32-byte owner identifier and an encoded
/// public-key string. A value type: the accumulator never retains one.
#[derive(Clone)]
pub struct Account {
    pub lamports: u64,
    pub data: Vec<u8>,
    pub is_executable: u8,
    pub owner: Vec<u8>,
    pub pubkey: String,
}

/// The canonical byte stream of an account, in the fixed wire order.
pub open spec fn account_bytes(a: &Account) -> Seq<u8> {
    vstd::bytes::spec_u64_to_le_bytes(a.lamports) + a.data@ + seq![a.is_executable] + a.owner@
        + vstd::utf8::encode_utf8(a.pubkey@)
}

/// The lattice element of an account. A record with balance zero is treated
/// as absent: it canonicalizes directly to the group identity, never through
/// the expander. Any other record's element is the expansion of its
/// canonical byte stream.
pub fn compute_lt_hash(account: &Account) -> (r: Vec<u8>)
    ensures
        r@.len() == LTHASH_LEN,
        account.lamports == 0 ==> r@ == identity_spec(),
        account.lamports != 0 ==> r@ == expand_spec(account_bytes(account)),
{
    if account.lamports == 0 {
        return LtHash::identity();
    }

    let mut lthash = LtHash::new();
    lthash.init();
    let lamport_bytes = vstd::bytes::u64_to_le_bytes(account.lamports);
    lthash.append(lamport_bytes.as_slice());
    let mut flag: Vec<u8> = Vec::new();
    flag.push(account.is_executable);
    lthash.append(account.data.as_slice());
    lthash.append(flag.as_slice());
    lthash.append(account.owner.as_slice());
    lthash.append(account.pubkey.as_str().as_bytes());
    proof {
        assert(flag@ =~= seq![account.is_executable]);
        assert(lthash@ =~= account_bytes(account));
    }
    lthash.fini()
}

} // verus!

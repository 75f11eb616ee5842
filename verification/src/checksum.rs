//! The short checksum of an accumulator state: the state's 32-byte digest,
//! truncated to its first `CHECKSUM_LEN` bytes and rendered as lowercase hex.
//! It is lossy by design — a compact fingerprint for equality checks and
//! display, never a value the state can be rebuilt from.

use vstd::prelude::*;
use crate::CHECKSUM_LEN;
use crate::expand::blake3_of;

verus! {

/// The sixteen lowercase hex digits, in value order.
pub open spec fn hex_digits() -> Seq<char> {
    seq!['0', '1', '2', '3', '4', '5', '6', '7', '8', '9', 'a', 'b', 'c', 'd', 'e', 'f']
}

/// Lowercase hex rendering of a byte sequence: two digits per byte, the high
/// nibble's digit first.
pub open spec fn hex_of(bytes: Seq<u8>) -> Seq<char> {
    Seq::new(
        2 * bytes.len(),
        |i: int|
            if i % 2 == 0 {
                hex_digits()[(bytes[i / 2] / 16) as int]
            } else {
                hex_digits()[(bytes[i / 2] % 16) as int]
            },
    )
}

/// The checksum bytes of a state: the first `CHECKSUM_LEN` bytes of the
/// state's digest.
pub open spec fn checksum_spec(state: Seq<u8>) -> Seq<u8> {
    blake3_of(state).subrange(0, CHECKSUM_LEN as int)
}

/// Relies on hex::encode: lowercase hex, two digits per byte, the high
/// nibble's digit first.
#[verifier::external_body]
pub(crate) fn hex_lower(bytes: &[u8]) -> (r: String)
    ensures
        r@ == hex_of(bytes@),
{
    hex::encode(bytes)
}

} // verus!

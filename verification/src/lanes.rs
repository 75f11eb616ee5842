//! The group operation of the lattice hash: the accumulator state and every
//! lattice element are byte strings of width `LTHASH_LEN`, combined lane by
//! lane with wraparound (mod 256) addition and subtraction. One lane is one
//! byte; that lane width is a format constant, not a tuning knob.

use vstd::prelude::*;
use crate::LTHASH_LEN;

verus! {

/// Wraparound addition in one 1-byte lane: `(x + y) mod 256`.
pub open spec fn byte_add(x: u8, y: u8) -> u8 {
    if x + y > 255 {
        (x + y - 256) as u8
    } else {
        (x + y) as u8
    }
}

/// Wraparound subtraction in one 1-byte lane: `(x - y) mod 256`.
pub open spec fn byte_sub(x: u8, y: u8) -> u8 {
    if x - y < 0 {
        (x - y + 256) as u8
    } else {
        (x - y) as u8
    }
}

/// Lane-wise group sum of two equal-width byte states.
pub open spec fn add_lanes(a: Seq<u8>, b: Seq<u8>) -> Seq<u8> {
    Seq::new(a.len(), |i: int| byte_add(a[i], b[i]))
}

/// Lane-wise group difference of two equal-width byte states.
pub open spec fn sub_lanes(a: Seq<u8>, b: Seq<u8>) -> Seq<u8> {
    Seq::new(a.len(), |i: int| byte_sub(a[i], b[i]))
}

/// The group identity: `LTHASH_LEN` zero bytes.
pub open spec fn identity_spec() -> Seq<u8> {
    Seq::new(LTHASH_LEN as nat, |i: int| 0u8)
}

/// Law: subtraction is the group inverse of addition. Adding an element and
/// then subtracting it (or the other way round) restores the state exactly.
pub proof fn lemma_group_inverse(s: Seq<u8>, e: Seq<u8>)
    requires
        s.len() == e.len(),
    ensures
        sub_lanes(add_lanes(s, e), e) == s,
        add_lanes(sub_lanes(s, e), e) == s,
{
    assert(sub_lanes(add_lanes(s, e), e) =~= s);
    assert(add_lanes(sub_lanes(s, e), e) =~= s);
}

/// Law: the group sum does not depend on the order of its two operands.
pub proof fn lemma_add_commutative(a: Seq<u8>, b: Seq<u8>)
    requires
        a.len() == b.len(),
    ensures
        add_lanes(a, b) == add_lanes(b, a),
{
    assert(add_lanes(a, b) =~= add_lanes(b, a));
}

/// Law: the group sum does not depend on how its operands are grouped.
pub proof fn lemma_add_associative(a: Seq<u8>, b: Seq<u8>, c: Seq<u8>)
    requires
        a.len() == b.len(),
        b.len() == c.len(),
    ensures
        add_lanes(add_lanes(a, b), c) == add_lanes(a, add_lanes(b, c)),
{
    assert(add_lanes(add_lanes(a, b), c) =~= add_lanes(a, add_lanes(b, c)));
}

/// Law: two elements can be added onto a state in either order; together with
/// commutativity and associativity this makes the final state of any sequence
/// of additions independent of the order of that sequence.
pub proof fn lemma_add_order_irrelevant(s: Seq<u8>, a: Seq<u8>, b: Seq<u8>)
    requires
        s.len() == a.len(),
        a.len() == b.len(),
    ensures
        add_lanes(add_lanes(s, a), b) == add_lanes(add_lanes(s, b), a),
{
    assert(add_lanes(add_lanes(s, a), b) =~= add_lanes(add_lanes(s, b), a));
}

/// The group sum of a sequence of elements, folded left onto a starting
/// state: the accumulator after adding each element of `elems` in turn.
pub open spec fn sum_elements(s: Seq<u8>, elems: Seq<Seq<u8>>) -> Seq<u8>
    decreases elems.len(),
{
    if elems.len() == 0 {
        s
    } else {
        sum_elements(add_lanes(s, elems[0]), elems.drop_first())
    }
}

/// Every element of `elems` is a byte string of width `w`.
pub open spec fn all_width(elems: Seq<Seq<u8>>, w: nat) -> bool {
    forall|i: int| 0 <= i < elems.len() ==> (#[trigger] elems[i]).len() == w
}

/// Adding the `j`-th element first and then the rest gives the same sum.
proof fn lemma_sum_pull_to_front(s: Seq<u8>, elems: Seq<Seq<u8>>, j: int)
    requires
        0 <= j < elems.len(),
        all_width(elems, s.len()),
    ensures
        sum_elements(s, elems) == sum_elements(add_lanes(s, elems[j]), elems.remove(j)),
    decreases j,
{
    if j == 0 {
        assert(elems.remove(0) =~= elems.drop_first());
    } else {
        let s1 = add_lanes(s, elems[0]);
        let tail = elems.drop_first();
        assert(s1.len() == s.len());
        assert(all_width(tail, s1.len())) by {
            assert(forall|i: int| 0 <= i < tail.len() ==> #[trigger] tail[i] == elems[i + 1]);
        }
        lemma_sum_pull_to_front(s1, tail, j - 1);
        assert(tail[j - 1] == elems[j]);
        lemma_add_order_irrelevant(s, elems[0], elems[j]);
        assert(tail.remove(j - 1) =~= elems.remove(j).drop_first());
        assert(elems.remove(j)[0] == elems[0]);
    }
}

/// Law: the final state of a sequence of additions does not depend on the
/// order of that sequence. Two sequences of elements that are permutations
/// of each other — they carry the same multiset of elements — sum to the
/// same state from any starting state.
pub proof fn lemma_sum_order_independent(s: Seq<u8>, e1: Seq<Seq<u8>>, e2: Seq<Seq<u8>>)
    requires
        all_width(e1, s.len()),
        all_width(e2, s.len()),
        e1.to_multiset() == e2.to_multiset(),
    ensures
        sum_elements(s, e1) == sum_elements(s, e2),
    decreases e1.len(),
{
    e1.to_multiset_ensures();
    e2.to_multiset_ensures();
    if e1.len() == 0 {
        assert(e2.len() == 0);
    } else {
        let x = e1[0];
        assert(e1.contains(x));
        assert(e1.to_multiset().count(x) > 0);
        assert(e2.contains(x));
        let j = choose|j: int| 0 <= j < e2.len() && e2[j] == x;
        lemma_sum_pull_to_front(s, e2, j);
        assert(e1.drop_first() =~= e1.remove(0));
        assert(e1.remove(0).to_multiset() == e1.to_multiset().remove(x));
        assert(e2.remove(j).to_multiset() == e2.to_multiset().remove(x));
        let s1 = add_lanes(s, x);
        assert(s1.len() == s.len());
        assert(all_width(e1.drop_first(), s1.len())) by {
            assert(forall|i: int|
                0 <= i < e1.drop_first().len() ==> #[trigger] e1.drop_first()[i] == e1[i + 1]);
        }
        assert(all_width(e2.remove(j), s1.len())) by {
            assert(forall|i: int|
                0 <= i < e2.remove(j).len() ==> #[trigger] e2.remove(j)[i] == if i < j {
                    e2[i]
                } else {
                    e2[i + 1]
                });
        }
        lemma_sum_order_independent(s1, e1.drop_first(), e2.remove(j));
    }
}

/// Law: the all-zero state is the group identity, and subtracting an element
/// from itself yields it.
pub proof fn lemma_identity(e: Seq<u8>)
    requires
        e.len() == LTHASH_LEN,
    ensures
        add_lanes(identity_spec(), e) == e,
        sub_lanes(e, e) == identity_spec(),
{
    assert(add_lanes(identity_spec(), e) =~= e);
    assert(sub_lanes(e, e) =~= identity_spec());
}

} // verus!

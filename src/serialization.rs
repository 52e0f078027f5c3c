//! Which fields serialization skips, kept in a `bit_set::BitSet`.
use vstd::prelude::*;

use crate::field_attributes::IgnoreBehavior;

verus! {

#[verifier::external_type_specification]
#[verifier::external_body]
#[verifier::reject_recursive_types(B)]
pub struct ExBitSet<B>(bit_set::BitSet<B>);

/// The numbers a bit set holds.
pub uninterp spec fn bitset_contents(s: bit_set::BitSet<u32>) -> Set<nat>;

/// Relies on `bit_set::BitSet::new`: a new set is empty.
#[verifier::external_body]
fn bitset_new() -> (r: bit_set::BitSet<u32>)
    ensures
        bitset_contents(r) == Set::<nat>::empty(),
{
    bit_set::BitSet::new()
}

/// Relies on `bit_set::BitSet::insert`: adds `value`; true when it was not
/// there before.
#[verifier::external_body]
fn bitset_insert(s: &mut bit_set::BitSet<u32>, value: usize) -> (r: bool)
    requires
        value < usize::MAX,
    ensures
        bitset_contents(*final(s)) == bitset_contents(*old(s)).insert(value as nat),
        r == !bitset_contents(*old(s)).contains(value as nat),
{
    s.insert(value)
}

/// Relies on `bit_set::BitSet::iter`: yields each number of the set once,
/// in increasing order.
#[verifier::external_body]
fn bitset_sorted(s: &bit_set::BitSet<u32>) -> (r: Vec<usize>)
    ensures
        forall|i: int, j: int| 0 <= i < j < r@.len() ==> r@[i] < r@[j],
        forall|n: nat| bitset_contents(*s).contains(n) <==> exists|i: int| 0 <= i < r@.len() && r@[i] as nat == n,
{
    s.iter().collect()
}

/// The serialization positions skipped, and the number of serialized
/// positions, for fields with the given behaviors: fields ignored
/// altogether take no position; fields skipped by serialization take one
/// and are skipped.
pub open spec fn denylist_spec(b: Seq<IgnoreBehavior>) -> (Set<nat>, nat)
    decreases b.len(),
{
    if b.len() == 0 {
        (Set::empty(), 0)
    } else {
        let (s, next) = denylist_spec(b.drop_last());
        match b.last() {
            IgnoreBehavior::IgnoreAlways => (s, next),
            IgnoreBehavior::IgnoreSerialization => (s.insert(next), next + 1),
            IgnoreBehavior::Active => (s, next + 1),
        }
    }
}

/// The set of serialization positions that are skipped (see [`denylist_spec`]).
pub fn members_to_serialization_denylist(behaviors: &Vec<IgnoreBehavior>) -> (r: bit_set::BitSet<u32>)
    ensures
        bitset_contents(r) == denylist_spec(behaviors@).0,
{
    let mut set = bitset_new();
    let mut next: usize = 0;
    let mut i: usize = 0;
    while i < behaviors.len()
        invariant
            i <= behaviors@.len(),
            denylist_spec(behaviors@.subrange(0, i as int)) == (bitset_contents(set), next as nat),
            next <= i,
        decreases behaviors@.len() - i,
    {
        proof {
            let p = behaviors@.subrange(0, i + 1);
            assert(p.drop_last() =~= behaviors@.subrange(0, i as int));
            assert(p.last() == behaviors@[i as int]);
        }
        match behaviors[i] {
            IgnoreBehavior::IgnoreAlways => {},
            IgnoreBehavior::IgnoreSerialization => {
                bitset_insert(&mut set, next);
                next = next + 1;
            },
            IgnoreBehavior::Active => {
                next = next + 1;
            },
        }
        i += 1;
    }
    assert(behaviors@.subrange(0, i as int) =~= behaviors@);
    set
}

/// The skipped positions in increasing order.
pub fn denylist_indices(s: &bit_set::BitSet<u32>) -> (r: Vec<usize>)
    ensures
        forall|i: int, j: int| 0 <= i < j < r@.len() ==> r@[i] < r@[j],
        forall|n: nat| bitset_contents(*s).contains(n) <==> exists|i: int| 0 <= i < r@.len() && r@[i] as nat == n,
{
    bitset_sorted(s)
}

} // verus!

//! The bit sets that masks are made of: `hibitset`'s `BitSet` and its
//! iterator, seen as the sets of indices they hold, and the intersection of
//! two of them.
use vstd::prelude::*;
use hibitset::BitSetLike;

verus! {

/// Type used for indexing entities and bits.
pub type Index = u32;

/// The number of indices a `BitSet` can hold: `usize::BITS` to the fourth
/// power (indices `0 .. 2^24` with a 64-bit `usize`, `0 .. 2^20` with 32 bits).
pub open spec fn index_limit() -> int {
    if usize::BITS == 64 {
        0x100_0000
    } else {
        0x10_0000
    }
}

/// `hibitset::BitSet`, a hierarchical set of indices.
#[verifier::external_type_specification]
#[verifier::external_body]
pub struct ExBitSet(hibitset::BitSet);

/// `hibitset::BitIter`, the iterator over the indices of a bit set.
#[verifier::external_type_specification]
#[verifier::external_body]
#[verifier::reject_recursive_types(T)]
pub struct ExBitIter<T>(hibitset::BitIter<T>);

/// The indices that a `BitSet` holds: those for which `BitSet::contains`
/// answers `true` (the set bits of its bottom layer).
pub uninterp spec fn bitset_view(s: hibitset::BitSet) -> Set<Index>;

/// Whether a `BitSet` is consistent: its layer vectors are long enough for
/// every bit their upper layers have set (they grow together, through
/// `extend`), each bit of its upper layers is set exactly when the word it
/// summarizes is not zero, and it holds no index at or above `index_limit()`. `BitSet::new` gives such a set and
/// `BitSet::add` below the limit keeps it so.
pub uninterp spec fn bitset_wf(s: hibitset::BitSet) -> bool;

/// The indices that a `BitIter` over a `BitSet` will still hand out.
pub uninterp spec fn bit_iter_view(it: hibitset::BitIter<hibitset::BitSet>) -> Set<Index>;

/// Whether a `BitIter` over a `BitSet` was made by `BitSetLike::iter` from a
/// consistent set and since then only advanced by `next`.
pub uninterp spec fn bit_iter_wf(it: hibitset::BitIter<hibitset::BitSet>) -> bool;

/// `BitSet::new`. Claimed: an empty, consistent set.
#[verifier::external_body]
pub(crate) fn bitset_new() -> (s: hibitset::BitSet)
    ensures
        bitset_wf(s),
        bitset_view(s) == Set::<Index>::empty(),
{
    hibitset::BitSet::new()
}

/// `BitSet::add`. Claimed, for a consistent set and an index below the
/// limit (where the source neither panics nor breaks the layers): the set
/// stays consistent and gains the index; the result tells whether it was
/// already there.
#[verifier::external_body]
pub(crate) fn bitset_add(s: &mut hibitset::BitSet, id: Index) -> (r: bool)
    requires
        bitset_wf(*old(s)),
        id < index_limit(),
    ensures
        bitset_wf(*final(s)),
        bitset_view(*final(s)) == bitset_view(*old(s)).insert(id),
        r == bitset_view(*old(s)).contains(id),
{
    s.add(id)
}

/// `BitSet::contains`. Claimed: whether the set holds the index.
#[verifier::external_body]
pub(crate) fn bitset_contains(s: &hibitset::BitSet, id: Index) -> (r: bool)
    ensures
        r == bitset_view(*s).contains(id),
{
    s.contains(id)
}

/// `Iterator::next` of `hibitset::BitIter<BitSet>`, on an iterator that
/// `iter` made from a consistent set. Claimed: it hands out the least index
/// that is left, which is below the limit, and no longer holds it
/// afterwards; it gives `None` exactly when nothing is left, and then keeps
/// nothing left. (The source scans the layers from the lowest bit up, so on
/// consistent layers indices come in increasing order; once every mask is
/// zero it keeps returning `None`.)
#[verifier::external_body]
pub(crate) fn bit_iter_next(it: &mut hibitset::BitIter<hibitset::BitSet>) -> (r: Option<Index>)
    requires
        bit_iter_wf(*old(it)),
    ensures
        bit_iter_wf(*final(it)),
        r is None <==> bit_iter_view(*old(it)) == Set::<Index>::empty(),
        r is None ==> bit_iter_view(*final(it)) == bit_iter_view(*old(it)),
        r matches Some(k) ==> {
            &&& bit_iter_view(*old(it)).contains(k)
            &&& k < index_limit()
            &&& forall|j: Index| bit_iter_view(*old(it)).contains(j) ==> k <= j
            &&& bit_iter_view(*final(it)) == bit_iter_view(*old(it)).remove(k)
        },
{
    it.next()
}

/// `BitSetLike::iter` on a consistent `BitSet`, taken by value. Claimed: the
/// iterator has every index of the set left to hand out, and no other.
#[verifier::external_body]
pub(crate) fn bitset_iter(s: hibitset::BitSet) -> (it: hibitset::BitIter<hibitset::BitSet>)
    requires
        bitset_wf(s),
    ensures
        bit_iter_wf(it),
        bit_iter_view(it) == bitset_view(s),
{
    s.iter()
}

/// `Clone::clone` of `hibitset::BitSet` (derived, copying every layer).
/// Claimed: the copy holds the same indices, and is consistent exactly when
/// the original is.
#[verifier::external_body]
pub(crate) fn bitset_clone(s: &hibitset::BitSet) -> (r: hibitset::BitSet)
    ensures
        bitset_view(r) == bitset_view(*s),
        bitset_wf(r) == bitset_wf(*s),
{
    s.clone()
}

/// A new, empty, consistent mask.
pub fn mask_new() -> (s: hibitset::BitSet)
    ensures
        bitset_wf(s),
        bitset_view(s) == Set::<Index>::empty(),
{
    bitset_new()
}

/// Adds `id` to a consistent mask, where it is below the limit; the result
/// then tells whether the mask held it already. At or above the limit the
/// mask is left as it is and the result is `None`.
pub fn mask_add(s: &mut hibitset::BitSet, id: Index) -> (r: Option<bool>)
    requires
        bitset_wf(*old(s)),
    ensures
        bitset_wf(*final(s)),
        r is None <==> id >= index_limit(),
        r is None ==> *final(s) == *old(s),
        r matches Some(b) ==> {
            &&& b == bitset_view(*old(s)).contains(id)
            &&& bitset_view(*final(s)) == bitset_view(*old(s)).insert(id)
        },
{
    let limit: u32 = if usize::BITS == 64 {
        0x100_0000
    } else {
        0x10_0000
    };
    if id < limit {
        Some(bitset_add(s, id))
    } else {
        None
    }
}

/// Whether a mask holds `id`.
pub fn mask_contains(s: &hibitset::BitSet, id: Index) -> (r: bool)
    ensures
        r == bitset_view(*s).contains(id),
{
    bitset_contains(s, id)
}

/// A copy of a mask: it holds the same indices, and is consistent exactly
/// when the mask is.
pub fn mask_copy(s: &hibitset::BitSet) -> (r: hibitset::BitSet)
    ensures
        bitset_view(r) == bitset_view(*s),
        bitset_wf(r) == bitset_wf(*s),
{
    bitset_clone(s)
}

/// The indices of the set `a` that are at or above `lo`.
pub open spec fn from_index(a: Set<Index>, lo: int) -> Set<Index> {
    Set::new(|i: Index| a.contains(i) && i >= lo)
}

/// The indices that both sets hold, below `lo`.
pub open spec fn both_below(a: Set<Index>, b: Set<Index>, lo: int) -> Set<Index> {
    Set::new(|i: Index| a.contains(i) && b.contains(i) && i < lo)
}

/// The intersection of two consistent bit sets: a new consistent set
/// holding the indices that both hold.
pub fn bitset_intersection(a: hibitset::BitSet, b: &hibitset::BitSet) -> (r: hibitset::BitSet)
    requires
        bitset_wf(a),
    ensures
        bitset_wf(r),
        bitset_view(r) == bitset_view(a).intersect(bitset_view(*b)),
{
    let ghost va = bitset_view(a);
    let ghost vb = bitset_view(*b);
    let mut keys = bitset_iter(a);
    let mut out = bitset_new();
    let ghost mut lo: int = 0;
    proof {
        assert(bit_iter_view(keys) =~= from_index(va, lo));
        assert(bitset_view(out) =~= both_below(va, vb, lo));
    }
    loop
        invariant
            vb == bitset_view(*b),
            bit_iter_wf(keys),
            bitset_wf(out),
            0 <= lo <= index_limit(),
            bit_iter_view(keys) == from_index(va, lo),
            bitset_view(out) == both_below(va, vb, lo),
        ensures
            bitset_wf(out),
            bitset_view(out) == va.intersect(vb),
        decreases index_limit() - lo,
    {
        match bit_iter_next(&mut keys) {
            Some(k) => {
                let ghost lo0 = lo;
                let ghost old_keys = from_index(va, lo0);
                let ghost old_out = bitset_view(out);
                if bitset_contains(b, k) {
                    bitset_add(&mut out, k);
                }
                proof {
                    assert(old_keys.contains(k));
                    lo = k + 1;
                    assert(bit_iter_view(keys) =~= from_index(va, lo)) by {
                        assert forall|j: Index| #[trigger] va.contains(j) && j >= lo implies bit_iter_view(keys).contains(j) by {
                            assert(old_keys.contains(j));
                        }
                        assert forall|j: Index| #[trigger] bit_iter_view(keys).contains(j) implies va.contains(j) && j >= lo by {
                            assert(old_keys.contains(j));
                        }
                    }
                    assert(bitset_view(out) =~= both_below(va, vb, lo)) by {
                        assert forall|j: Index| va.contains(j) && vb.contains(j) && j < lo
                            implies #[trigger] bitset_view(out).contains(j) by {
                            if j < k {
                                if j >= lo0 {
                                    assert(old_keys.contains(j));
                                }
                                assert(old_out.contains(j));
                            }
                        }
                        assert forall|j: Index| #[trigger] bitset_view(out).contains(j)
                            implies va.contains(j) && vb.contains(j) && j < lo by {
                            if j != k {
                                assert(old_out.contains(j));
                            }
                        }
                    }
                }
            },
            None => {
                proof {
                    assert forall|j: Index| #[trigger] va.contains(j) implies j < lo by {
                        if j >= lo {
                            assert(from_index(va, lo).contains(j));
                        }
                    }
                    assert(bitset_view(out) =~= va.intersect(vb));
                }
                break;
            },
        }
    }
    out
}

} // verus!

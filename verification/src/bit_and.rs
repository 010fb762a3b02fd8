//! `BitAnd` intersects bit sets together, resulting in one bit set; a tuple
//! of bit sets is split in two halves, each intersected on its own.
use vstd::prelude::*;
use hibitset::BitSet;
use crate::bitset::{Index, bitset_view, bitset_wf, bitset_intersection};

verus! {

/// The indices that every set of the sequence holds.
pub open spec fn all_of(s: Seq<Set<Index>>) -> Set<Index> {
    Set::new(|i: Index| forall|k: int| 0 <= k < s.len() ==> #[trigger] s[k].contains(i))
}

/// `BitAnd` intersects bit sets together, resulting in one bit set.
pub trait BitAnd: Sized {
    /// Whether every bit set in it is consistent.
    spec fn and_wf(&self) -> bool;

    /// The indices of each bit set in it, in order.
    spec fn members(&self) -> Seq<Set<Index>>;

    /// The indices that the intersection holds.
    spec fn and_view(&self) -> Set<Index>;

    /// The intersection holds exactly the indices that every member holds.
    proof fn lemma_and_members(&self)
        ensures
            self.and_view() == all_of(self.members()),
    ;

    /// Intersect the bit sets.
    fn and(self) -> (r: BitSet)
        requires
            self.and_wf(),
        ensures
            bitset_wf(r),
            bitset_view(r) == self.and_view(),
    ;
}

impl BitAnd for BitSet {
    open spec fn and_wf(&self) -> bool {
        bitset_wf(*self)
    }

    open spec fn members(&self) -> Seq<Set<Index>> {
        seq![bitset_view(*self)]
    }

    open spec fn and_view(&self) -> Set<Index> {
        bitset_view(*self)
    }

    proof fn lemma_and_members(&self) {
        let s = self.members();
        assert(s[0] == bitset_view(*self));
        assert forall|i: Index| #[trigger] all_of(s).contains(i) <==> self.and_view().contains(i) by {
            if all_of(s).contains(i) {
                assert(s[0].contains(i));
            }
        }
        assert(self.and_view() =~= all_of(s));
    }

    fn and(self) -> (r: BitSet) {
        assert(self.and_wf() && bitset_view(self) == self.and_view());
        self
    }
}

impl BitAnd for (BitSet,) {
    open spec fn and_wf(&self) -> bool {
        bitset_wf(self.0)
    }

    open spec fn members(&self) -> Seq<Set<Index>> {
        seq![bitset_view(self.0)]
    }

    open spec fn and_view(&self) -> Set<Index> {
        bitset_view(self.0)
    }

    proof fn lemma_and_members(&self) {
        let s = self.members();
        assert(s[0] == bitset_view(self.0));
        assert forall|i: Index| #[trigger] all_of(s).contains(i) <==> self.and_view().contains(i) by {
            if all_of(s).contains(i) {
                assert(s[0].contains(i));
            }
        }
        assert(self.and_view() =~= all_of(s));
    }

    fn and(self) -> (r: BitSet) {
        assert(self.and_wf());
        let (a0,) = self;
        assert(bitset_wf(a0) && bitset_view(a0) == self.and_view());
        a0
    }
}

impl BitAnd for (BitSet, BitSet) {
    open spec fn and_wf(&self) -> bool {
        bitset_wf(self.0) && bitset_wf(self.1)
    }

    open spec fn members(&self) -> Seq<Set<Index>> {
        seq![bitset_view(self.0), bitset_view(self.1)]
    }

    open spec fn and_view(&self) -> Set<Index> {
        bitset_view(self.0).intersect(bitset_view(self.1))
    }

    proof fn lemma_and_members(&self) {
        let s = self.members();
        assert(s[0] == bitset_view(self.0));
        assert(s[1] == bitset_view(self.1));
        assert forall|i: Index| #[trigger] all_of(s).contains(i) <==> self.and_view().contains(i) by {
            if all_of(s).contains(i) {
                assert(s[0].contains(i) && s[1].contains(i));
            }
            if self.and_view().contains(i) {
                assert forall|k: int| 0 <= k < s.len() implies #[trigger] s[k].contains(i) by {
                    assert(k == 0 || k == 1);
                }
            }
        }
        assert(self.and_view() =~= all_of(s));
    }

    fn and(self) -> (r: BitSet) {
        proof {
            // Unfolds this impl's `and_wf` in the `requires` inherited from the trait.
            assert(self.and_wf());
        }
        let (a0, a1) = self;
        let (l, r) = ((a0,), (a1,));
        let m = l.and();
        let rm = r.and();
        let res = bitset_intersection(m, &rm);
        proof {
            assert(bitset_view(res) =~= self.and_view());
        }
        res
    }
}

impl BitAnd for (BitSet, BitSet, BitSet) {
    open spec fn and_wf(&self) -> bool {
        bitset_wf(self.0) && bitset_wf(self.1) && bitset_wf(self.2)
    }

    open spec fn members(&self) -> Seq<Set<Index>> {
        seq![bitset_view(self.0), bitset_view(self.1), bitset_view(self.2)]
    }

    open spec fn and_view(&self) -> Set<Index> {
        bitset_view(self.0).intersect(bitset_view(self.1)).intersect(bitset_view(self.2))
    }

    proof fn lemma_and_members(&self) {
        let s = self.members();
        assert(s[0] == bitset_view(self.0));
        assert(s[1] == bitset_view(self.1));
        assert(s[2] == bitset_view(self.2));
        assert forall|i: Index| #[trigger] all_of(s).contains(i) <==> self.and_view().contains(i) by {
            if all_of(s).contains(i) {
                assert(s[0].contains(i) && s[1].contains(i) && s[2].contains(i));
            }
            if self.and_view().contains(i) {
                assert forall|k: int| 0 <= k < s.len() implies #[trigger] s[k].contains(i) by {
                    assert(k == 0 || k == 1 || k == 2);
                }
            }
        }
        assert(self.and_view() =~= all_of(s));
    }

    fn and(self) -> (r: BitSet) {
        proof {
            // Unfolds this impl's `and_wf` in the `requires` inherited from the trait.
            assert(self.and_wf());
        }
        let (a0, a1, a2) = self;
        let (l, r) = ((a0,), (a1, a2));
        let m = l.and();
        let rm = r.and();
        let res = bitset_intersection(m, &rm);
        proof {
            assert(bitset_view(res) =~= self.and_view());
        }
        res
    }
}

impl BitAnd for (BitSet, BitSet, BitSet, BitSet) {
    open spec fn and_wf(&self) -> bool {
        bitset_wf(self.0) && bitset_wf(self.1) && bitset_wf(self.2) && bitset_wf(self.3)
    }

    open spec fn members(&self) -> Seq<Set<Index>> {
        seq![bitset_view(self.0), bitset_view(self.1), bitset_view(self.2), bitset_view(self.3)]
    }

    open spec fn and_view(&self) -> Set<Index> {
        bitset_view(self.0).intersect(bitset_view(self.1)).intersect(bitset_view(self.2)).intersect(bitset_view(self.3))
    }

    proof fn lemma_and_members(&self) {
        let s = self.members();
        assert(s[0] == bitset_view(self.0));
        assert(s[1] == bitset_view(self.1));
        assert(s[2] == bitset_view(self.2));
        assert(s[3] == bitset_view(self.3));
        assert forall|i: Index| #[trigger] all_of(s).contains(i) <==> self.and_view().contains(i) by {
            if all_of(s).contains(i) {
                assert(s[0].contains(i) && s[1].contains(i) && s[2].contains(i) && s[3].contains(i));
            }
            if self.and_view().contains(i) {
                assert forall|k: int| 0 <= k < s.len() implies #[trigger] s[k].contains(i) by {
                    assert(k == 0 || k == 1 || k == 2 || k == 3);
                }
            }
        }
        assert(self.and_view() =~= all_of(s));
    }

    fn and(self) -> (r: BitSet) {
        proof {
            // Unfolds this impl's `and_wf` in the `requires` inherited from the trait.
            assert(self.and_wf());
        }
        let (a0, a1, a2, a3) = self;
        let (l, r) = ((a0, a1), (a2, a3));
        let m = l.and();
        let rm = r.and();
        let res = bitset_intersection(m, &rm);
        proof {
            assert(bitset_view(res) =~= self.and_view());
        }
        res
    }
}

impl BitAnd for (BitSet, BitSet, BitSet, BitSet, BitSet) {
    open spec fn and_wf(&self) -> bool {
        bitset_wf(self.0) && bitset_wf(self.1) && bitset_wf(self.2) && bitset_wf(self.3) && bitset_wf(self.4)
    }

    open spec fn members(&self) -> Seq<Set<Index>> {
        seq![bitset_view(self.0), bitset_view(self.1), bitset_view(self.2), bitset_view(self.3), bitset_view(self.4)]
    }

    open spec fn and_view(&self) -> Set<Index> {
        bitset_view(self.0).intersect(bitset_view(self.1)).intersect(bitset_view(self.2)).intersect(bitset_view(self.3)).intersect(bitset_view(self.4))
    }

    proof fn lemma_and_members(&self) {
        let s = self.members();
        assert(s[0] == bitset_view(self.0));
        assert(s[1] == bitset_view(self.1));
        assert(s[2] == bitset_view(self.2));
        assert(s[3] == bitset_view(self.3));
        assert(s[4] == bitset_view(self.4));
        assert forall|i: Index| #[trigger] all_of(s).contains(i) <==> self.and_view().contains(i) by {
            if all_of(s).contains(i) {
                assert(s[0].contains(i) && s[1].contains(i) && s[2].contains(i) && s[3].contains(i) && s[4].contains(i));
            }
            if self.and_view().contains(i) {
                assert forall|k: int| 0 <= k < s.len() implies #[trigger] s[k].contains(i) by {
                    assert(k == 0 || k == 1 || k == 2 || k == 3 || k == 4);
                }
            }
        }
        assert(self.and_view() =~= all_of(s));
    }

    fn and(self) -> (r: BitSet) {
        proof {
            // Unfolds this impl's `and_wf` in the `requires` inherited from the trait.
            assert(self.and_wf());
        }
        let (a0, a1, a2, a3, a4) = self;
        let (l, r) = ((a0, a1), (a2, a3, a4));
        let m = l.and();
        let rm = r.and();
        let res = bitset_intersection(m, &rm);
        proof {
            assert(bitset_view(res) =~= self.and_view());
        }
        res
    }
}

impl BitAnd for (BitSet, BitSet, BitSet, BitSet, BitSet, BitSet) {
    open spec fn and_wf(&self) -> bool {
        bitset_wf(self.0) && bitset_wf(self.1) && bitset_wf(self.2) && bitset_wf(self.3) && bitset_wf(self.4) && bitset_wf(self.5)
    }

    open spec fn members(&self) -> Seq<Set<Index>> {
        seq![bitset_view(self.0), bitset_view(self.1), bitset_view(self.2), bitset_view(self.3), bitset_view(self.4), bitset_view(self.5)]
    }

    open spec fn and_view(&self) -> Set<Index> {
        bitset_view(self.0).intersect(bitset_view(self.1)).intersect(bitset_view(self.2)).intersect(bitset_view(self.3)).intersect(bitset_view(self.4)).intersect(bitset_view(self.5))
    }

    proof fn lemma_and_members(&self) {
        let s = self.members();
        assert(s[0] == bitset_view(self.0));
        assert(s[1] == bitset_view(self.1));
        assert(s[2] == bitset_view(self.2));
        assert(s[3] == bitset_view(self.3));
        assert(s[4] == bitset_view(self.4));
        assert(s[5] == bitset_view(self.5));
        assert forall|i: Index| #[trigger] all_of(s).contains(i) <==> self.and_view().contains(i) by {
            if all_of(s).contains(i) {
                assert(s[0].contains(i) && s[1].contains(i) && s[2].contains(i) && s[3].contains(i) && s[4].contains(i) && s[5].contains(i));
            }
            if self.and_view().contains(i) {
                assert forall|k: int| 0 <= k < s.len() implies #[trigger] s[k].contains(i) by {
                    assert(k == 0 || k == 1 || k == 2 || k == 3 || k == 4 || k == 5);
                }
            }
        }
        assert(self.and_view() =~= all_of(s));
    }

    fn and(self) -> (r: BitSet) {
        proof {
            // Unfolds this impl's `and_wf` in the `requires` inherited from the trait.
            assert(self.and_wf());
        }
        let (a0, a1, a2, a3, a4, a5) = self;
        let (l, r) = ((a0, a1, a2), (a3, a4, a5));
        let m = l.and();
        let rm = r.and();
        let res = bitset_intersection(m, &rm);
        proof {
            assert(bitset_view(res) =~= self.and_view());
        }
        res
    }
}

impl BitAnd for (BitSet, BitSet, BitSet, BitSet, BitSet, BitSet, BitSet) {
    open spec fn and_wf(&self) -> bool {
        bitset_wf(self.0) && bitset_wf(self.1) && bitset_wf(self.2) && bitset_wf(self.3) && bitset_wf(self.4) && bitset_wf(self.5) && bitset_wf(self.6)
    }

    open spec fn members(&self) -> Seq<Set<Index>> {
        seq![bitset_view(self.0), bitset_view(self.1), bitset_view(self.2), bitset_view(self.3), bitset_view(self.4), bitset_view(self.5), bitset_view(self.6)]
    }

    open spec fn and_view(&self) -> Set<Index> {
        bitset_view(self.0).intersect(bitset_view(self.1)).intersect(bitset_view(self.2)).intersect(bitset_view(self.3)).intersect(bitset_view(self.4)).intersect(bitset_view(self.5)).intersect(bitset_view(self.6))
    }

    proof fn lemma_and_members(&self) {
        let s = self.members();
        assert(s[0] == bitset_view(self.0));
        assert(s[1] == bitset_view(self.1));
        assert(s[2] == bitset_view(self.2));
        assert(s[3] == bitset_view(self.3));
        assert(s[4] == bitset_view(self.4));
        assert(s[5] == bitset_view(self.5));
        assert(s[6] == bitset_view(self.6));
        assert forall|i: Index| #[trigger] all_of(s).contains(i) <==> self.and_view().contains(i) by {
            if all_of(s).contains(i) {
                assert(s[0].contains(i) && s[1].contains(i) && s[2].contains(i) && s[3].contains(i) && s[4].contains(i) && s[5].contains(i) && s[6].contains(i));
            }
            if self.and_view().contains(i) {
                assert forall|k: int| 0 <= k < s.len() implies #[trigger] s[k].contains(i) by {
                    assert(k == 0 || k == 1 || k == 2 || k == 3 || k == 4 || k == 5 || k == 6);
                }
            }
        }
        assert(self.and_view() =~= all_of(s));
    }

    fn and(self) -> (r: BitSet) {
        proof {
            // Unfolds this impl's `and_wf` in the `requires` inherited from the trait.
            assert(self.and_wf());
        }
        let (a0, a1, a2, a3, a4, a5, a6) = self;
        let (l, r) = ((a0, a1, a2), (a3, a4, a5, a6));
        let m = l.and();
        let rm = r.and();
        let res = bitset_intersection(m, &rm);
        proof {
            assert(bitset_view(res) =~= self.and_view());
        }
        res
    }
}

impl BitAnd for (BitSet, BitSet, BitSet, BitSet, BitSet, BitSet, BitSet, BitSet) {
    open spec fn and_wf(&self) -> bool {
        bitset_wf(self.0) && bitset_wf(self.1) && bitset_wf(self.2) && bitset_wf(self.3) && bitset_wf(self.4) && bitset_wf(self.5) && bitset_wf(self.6) && bitset_wf(self.7)
    }

    open spec fn members(&self) -> Seq<Set<Index>> {
        seq![bitset_view(self.0), bitset_view(self.1), bitset_view(self.2), bitset_view(self.3), bitset_view(self.4), bitset_view(self.5), bitset_view(self.6), bitset_view(self.7)]
    }

    open spec fn and_view(&self) -> Set<Index> {
        bitset_view(self.0).intersect(bitset_view(self.1)).intersect(bitset_view(self.2)).intersect(bitset_view(self.3)).intersect(bitset_view(self.4)).intersect(bitset_view(self.5)).intersect(bitset_view(self.6)).intersect(bitset_view(self.7))
    }

    proof fn lemma_and_members(&self) {
        let s = self.members();
        assert(s[0] == bitset_view(self.0));
        assert(s[1] == bitset_view(self.1));
        assert(s[2] == bitset_view(self.2));
        assert(s[3] == bitset_view(self.3));
        assert(s[4] == bitset_view(self.4));
        assert(s[5] == bitset_view(self.5));
        assert(s[6] == bitset_view(self.6));
        assert(s[7] == bitset_view(self.7));
        assert forall|i: Index| #[trigger] all_of(s).contains(i) <==> self.and_view().contains(i) by {
            if all_of(s).contains(i) {
                assert(s[0].contains(i) && s[1].contains(i) && s[2].contains(i) && s[3].contains(i) && s[4].contains(i) && s[5].contains(i) && s[6].contains(i) && s[7].contains(i));
            }
            if self.and_view().contains(i) {
                assert forall|k: int| 0 <= k < s.len() implies #[trigger] s[k].contains(i) by {
                    assert(k == 0 || k == 1 || k == 2 || k == 3 || k == 4 || k == 5 || k == 6 || k == 7);
                }
            }
        }
        assert(self.and_view() =~= all_of(s));
    }

    fn and(self) -> (r: BitSet) {
        proof {
            // Unfolds this impl's `and_wf` in the `requires` inherited from the trait.
            assert(self.and_wf());
        }
        let (a0, a1, a2, a3, a4, a5, a6, a7) = self;
        let (l, r) = ((a0, a1, a2, a3), (a4, a5, a6, a7));
        let m = l.and();
        let rm = r.and();
        let res = bitset_intersection(m, &rm);
        proof {
            assert(bitset_view(res) =~= self.and_view());
        }
        res
    }
}

impl BitAnd for (BitSet, BitSet, BitSet, BitSet, BitSet, BitSet, BitSet, BitSet, BitSet) {
    open spec fn and_wf(&self) -> bool {
        bitset_wf(self.0) && bitset_wf(self.1) && bitset_wf(self.2) && bitset_wf(self.3) && bitset_wf(self.4) && bitset_wf(self.5) && bitset_wf(self.6) && bitset_wf(self.7) && bitset_wf(self.8)
    }

    open spec fn members(&self) -> Seq<Set<Index>> {
        seq![bitset_view(self.0), bitset_view(self.1), bitset_view(self.2), bitset_view(self.3), bitset_view(self.4), bitset_view(self.5), bitset_view(self.6), bitset_view(self.7), bitset_view(self.8)]
    }

    open spec fn and_view(&self) -> Set<Index> {
        bitset_view(self.0).intersect(bitset_view(self.1)).intersect(bitset_view(self.2)).intersect(bitset_view(self.3)).intersect(bitset_view(self.4)).intersect(bitset_view(self.5)).intersect(bitset_view(self.6)).intersect(bitset_view(self.7)).intersect(bitset_view(self.8))
    }

    proof fn lemma_and_members(&self) {
        let s = self.members();
        assert(s[0] == bitset_view(self.0));
        assert(s[1] == bitset_view(self.1));
        assert(s[2] == bitset_view(self.2));
        assert(s[3] == bitset_view(self.3));
        assert(s[4] == bitset_view(self.4));
        assert(s[5] == bitset_view(self.5));
        assert(s[6] == bitset_view(self.6));
        assert(s[7] == bitset_view(self.7));
        assert(s[8] == bitset_view(self.8));
        assert forall|i: Index| #[trigger] all_of(s).contains(i) <==> self.and_view().contains(i) by {
            if all_of(s).contains(i) {
                assert(s[0].contains(i) && s[1].contains(i) && s[2].contains(i) && s[3].contains(i) && s[4].contains(i) && s[5].contains(i) && s[6].contains(i) && s[7].contains(i) && s[8].contains(i));
            }
            if self.and_view().contains(i) {
                assert forall|k: int| 0 <= k < s.len() implies #[trigger] s[k].contains(i) by {
                    assert(k == 0 || k == 1 || k == 2 || k == 3 || k == 4 || k == 5 || k == 6 || k == 7 || k == 8);
                }
            }
        }
        assert(self.and_view() =~= all_of(s));
    }

    fn and(self) -> (r: BitSet) {
        proof {
            // Unfolds this impl's `and_wf` in the `requires` inherited from the trait.
            assert(self.and_wf());
        }
        let (a0, a1, a2, a3, a4, a5, a6, a7, a8) = self;
        let (l, r) = ((a0, a1, a2, a3), (a4, a5, a6, a7, a8));
        let m = l.and();
        let rm = r.and();
        let res = bitset_intersection(m, &rm);
        proof {
            assert(bitset_view(res) =~= self.and_view());
        }
        res
    }
}

impl BitAnd for (BitSet, BitSet, BitSet, BitSet, BitSet, BitSet, BitSet, BitSet, BitSet, BitSet) {
    open spec fn and_wf(&self) -> bool {
        bitset_wf(self.0) && bitset_wf(self.1) && bitset_wf(self.2) && bitset_wf(self.3) && bitset_wf(self.4) && bitset_wf(self.5) && bitset_wf(self.6) && bitset_wf(self.7) && bitset_wf(self.8) && bitset_wf(self.9)
    }

    open spec fn members(&self) -> Seq<Set<Index>> {
        seq![bitset_view(self.0), bitset_view(self.1), bitset_view(self.2), bitset_view(self.3), bitset_view(self.4), bitset_view(self.5), bitset_view(self.6), bitset_view(self.7), bitset_view(self.8), bitset_view(self.9)]
    }

    open spec fn and_view(&self) -> Set<Index> {
        bitset_view(self.0).intersect(bitset_view(self.1)).intersect(bitset_view(self.2)).intersect(bitset_view(self.3)).intersect(bitset_view(self.4)).intersect(bitset_view(self.5)).intersect(bitset_view(self.6)).intersect(bitset_view(self.7)).intersect(bitset_view(self.8)).intersect(bitset_view(self.9))
    }

    proof fn lemma_and_members(&self) {
        let s = self.members();
        assert(s[0] == bitset_view(self.0));
        assert(s[1] == bitset_view(self.1));
        assert(s[2] == bitset_view(self.2));
        assert(s[3] == bitset_view(self.3));
        assert(s[4] == bitset_view(self.4));
        assert(s[5] == bitset_view(self.5));
        assert(s[6] == bitset_view(self.6));
        assert(s[7] == bitset_view(self.7));
        assert(s[8] == bitset_view(self.8));
        assert(s[9] == bitset_view(self.9));
        assert forall|i: Index| #[trigger] all_of(s).contains(i) <==> self.and_view().contains(i) by {
            if all_of(s).contains(i) {
                assert(s[0].contains(i) && s[1].contains(i) && s[2].contains(i) && s[3].contains(i) && s[4].contains(i) && s[5].contains(i) && s[6].contains(i) && s[7].contains(i) && s[8].contains(i) && s[9].contains(i));
            }
            if self.and_view().contains(i) {
                assert forall|k: int| 0 <= k < s.len() implies #[trigger] s[k].contains(i) by {
                    assert(k == 0 || k == 1 || k == 2 || k == 3 || k == 4 || k == 5 || k == 6 || k == 7 || k == 8 || k == 9);
                }
            }
        }
        assert(self.and_view() =~= all_of(s));
    }

    fn and(self) -> (r: BitSet) {
        proof {
            // Unfolds this impl's `and_wf` in the `requires` inherited from the trait.
            assert(self.and_wf());
        }
        let (a0, a1, a2, a3, a4, a5, a6, a7, a8, a9) = self;
        let (l, r) = ((a0, a1, a2, a3, a4), (a5, a6, a7, a8, a9));
        let m = l.and();
        let rm = r.and();
        let res = bitset_intersection(m, &rm);
        proof {
            assert(bitset_view(res) =~= self.and_view());
        }
        res
    }
}

impl BitAnd for (BitSet, BitSet, BitSet, BitSet, BitSet, BitSet, BitSet, BitSet, BitSet, BitSet, BitSet) {
    open spec fn and_wf(&self) -> bool {
        bitset_wf(self.0) && bitset_wf(self.1) && bitset_wf(self.2) && bitset_wf(self.3) && bitset_wf(self.4) && bitset_wf(self.5) && bitset_wf(self.6) && bitset_wf(self.7) && bitset_wf(self.8) && bitset_wf(self.9) && bitset_wf(self.10)
    }

    open spec fn members(&self) -> Seq<Set<Index>> {
        seq![bitset_view(self.0), bitset_view(self.1), bitset_view(self.2), bitset_view(self.3), bitset_view(self.4), bitset_view(self.5), bitset_view(self.6), bitset_view(self.7), bitset_view(self.8), bitset_view(self.9), bitset_view(self.10)]
    }

    open spec fn and_view(&self) -> Set<Index> {
        bitset_view(self.0).intersect(bitset_view(self.1)).intersect(bitset_view(self.2)).intersect(bitset_view(self.3)).intersect(bitset_view(self.4)).intersect(bitset_view(self.5)).intersect(bitset_view(self.6)).intersect(bitset_view(self.7)).intersect(bitset_view(self.8)).intersect(bitset_view(self.9)).intersect(bitset_view(self.10))
    }

    proof fn lemma_and_members(&self) {
        let s = self.members();
        assert(s[0] == bitset_view(self.0));
        assert(s[1] == bitset_view(self.1));
        assert(s[2] == bitset_view(self.2));
        assert(s[3] == bitset_view(self.3));
        assert(s[4] == bitset_view(self.4));
        assert(s[5] == bitset_view(self.5));
        assert(s[6] == bitset_view(self.6));
        assert(s[7] == bitset_view(self.7));
        assert(s[8] == bitset_view(self.8));
        assert(s[9] == bitset_view(self.9));
        assert(s[10] == bitset_view(self.10));
        assert forall|i: Index| #[trigger] all_of(s).contains(i) <==> self.and_view().contains(i) by {
            if all_of(s).contains(i) {
                assert(s[0].contains(i) && s[1].contains(i) && s[2].contains(i) && s[3].contains(i) && s[4].contains(i) && s[5].contains(i) && s[6].contains(i) && s[7].contains(i) && s[8].contains(i) && s[9].contains(i) && s[10].contains(i));
            }
            if self.and_view().contains(i) {
                assert forall|k: int| 0 <= k < s.len() implies #[trigger] s[k].contains(i) by {
                    assert(k == 0 || k == 1 || k == 2 || k == 3 || k == 4 || k == 5 || k == 6 || k == 7 || k == 8 || k == 9 || k == 10);
                }
            }
        }
        assert(self.and_view() =~= all_of(s));
    }

    fn and(self) -> (r: BitSet) {
        proof {
            // Unfolds this impl's `and_wf` in the `requires` inherited from the trait.
            assert(self.and_wf());
        }
        let (a0, a1, a2, a3, a4, a5, a6, a7, a8, a9, a10) = self;
        let (l, r) = ((a0, a1, a2, a3, a4), (a5, a6, a7, a8, a9, a10));
        let m = l.and();
        let rm = r.and();
        let res = bitset_intersection(m, &rm);
        proof {
            assert(bitset_view(res) =~= self.and_view());
        }
        res
    }
}

impl BitAnd for (BitSet, BitSet, BitSet, BitSet, BitSet, BitSet, BitSet, BitSet, BitSet, BitSet, BitSet, BitSet) {
    open spec fn and_wf(&self) -> bool {
        bitset_wf(self.0) && bitset_wf(self.1) && bitset_wf(self.2) && bitset_wf(self.3) && bitset_wf(self.4) && bitset_wf(self.5) && bitset_wf(self.6) && bitset_wf(self.7) && bitset_wf(self.8) && bitset_wf(self.9) && bitset_wf(self.10) && bitset_wf(self.11)
    }

    open spec fn members(&self) -> Seq<Set<Index>> {
        seq![bitset_view(self.0), bitset_view(self.1), bitset_view(self.2), bitset_view(self.3), bitset_view(self.4), bitset_view(self.5), bitset_view(self.6), bitset_view(self.7), bitset_view(self.8), bitset_view(self.9), bitset_view(self.10), bitset_view(self.11)]
    }

    open spec fn and_view(&self) -> Set<Index> {
        bitset_view(self.0).intersect(bitset_view(self.1)).intersect(bitset_view(self.2)).intersect(bitset_view(self.3)).intersect(bitset_view(self.4)).intersect(bitset_view(self.5)).intersect(bitset_view(self.6)).intersect(bitset_view(self.7)).intersect(bitset_view(self.8)).intersect(bitset_view(self.9)).intersect(bitset_view(self.10)).intersect(bitset_view(self.11))
    }

    proof fn lemma_and_members(&self) {
        let s = self.members();
        assert(s[0] == bitset_view(self.0));
        assert(s[1] == bitset_view(self.1));
        assert(s[2] == bitset_view(self.2));
        assert(s[3] == bitset_view(self.3));
        assert(s[4] == bitset_view(self.4));
        assert(s[5] == bitset_view(self.5));
        assert(s[6] == bitset_view(self.6));
        assert(s[7] == bitset_view(self.7));
        assert(s[8] == bitset_view(self.8));
        assert(s[9] == bitset_view(self.9));
        assert(s[10] == bitset_view(self.10));
        assert(s[11] == bitset_view(self.11));
        assert forall|i: Index| #[trigger] all_of(s).contains(i) <==> self.and_view().contains(i) by {
            if all_of(s).contains(i) {
                assert(s[0].contains(i) && s[1].contains(i) && s[2].contains(i) && s[3].contains(i) && s[4].contains(i) && s[5].contains(i) && s[6].contains(i) && s[7].contains(i) && s[8].contains(i) && s[9].contains(i) && s[10].contains(i) && s[11].contains(i));
            }
            if self.and_view().contains(i) {
                assert forall|k: int| 0 <= k < s.len() implies #[trigger] s[k].contains(i) by {
                    assert(k == 0 || k == 1 || k == 2 || k == 3 || k == 4 || k == 5 || k == 6 || k == 7 || k == 8 || k == 9 || k == 10 || k == 11);
                }
            }
        }
        assert(self.and_view() =~= all_of(s));
    }

    fn and(self) -> (r: BitSet) {
        proof {
            // Unfolds this impl's `and_wf` in the `requires` inherited from the trait.
            assert(self.and_wf());
        }
        let (a0, a1, a2, a3, a4, a5, a6, a7, a8, a9, a10, a11) = self;
        let (l, r) = ((a0, a1, a2, a3, a4, a5), (a6, a7, a8, a9, a10, a11));
        let m = l.and();
        let rm = r.and();
        let res = bitset_intersection(m, &rm);
        proof {
            assert(bitset_view(res) =~= self.and_view());
        }
        res
    }
}

impl BitAnd for (BitSet, BitSet, BitSet, BitSet, BitSet, BitSet, BitSet, BitSet, BitSet, BitSet, BitSet, BitSet, BitSet) {
    open spec fn and_wf(&self) -> bool {
        bitset_wf(self.0) && bitset_wf(self.1) && bitset_wf(self.2) && bitset_wf(self.3) && bitset_wf(self.4) && bitset_wf(self.5) && bitset_wf(self.6) && bitset_wf(self.7) && bitset_wf(self.8) && bitset_wf(self.9) && bitset_wf(self.10) && bitset_wf(self.11) && bitset_wf(self.12)
    }

    open spec fn members(&self) -> Seq<Set<Index>> {
        seq![bitset_view(self.0), bitset_view(self.1), bitset_view(self.2), bitset_view(self.3), bitset_view(self.4), bitset_view(self.5), bitset_view(self.6), bitset_view(self.7), bitset_view(self.8), bitset_view(self.9), bitset_view(self.10), bitset_view(self.11), bitset_view(self.12)]
    }

    open spec fn and_view(&self) -> Set<Index> {
        bitset_view(self.0).intersect(bitset_view(self.1)).intersect(bitset_view(self.2)).intersect(bitset_view(self.3)).intersect(bitset_view(self.4)).intersect(bitset_view(self.5)).intersect(bitset_view(self.6)).intersect(bitset_view(self.7)).intersect(bitset_view(self.8)).intersect(bitset_view(self.9)).intersect(bitset_view(self.10)).intersect(bitset_view(self.11)).intersect(bitset_view(self.12))
    }

    proof fn lemma_and_members(&self) {
        let s = self.members();
        assert(s[0] == bitset_view(self.0));
        assert(s[1] == bitset_view(self.1));
        assert(s[2] == bitset_view(self.2));
        assert(s[3] == bitset_view(self.3));
        assert(s[4] == bitset_view(self.4));
        assert(s[5] == bitset_view(self.5));
        assert(s[6] == bitset_view(self.6));
        assert(s[7] == bitset_view(self.7));
        assert(s[8] == bitset_view(self.8));
        assert(s[9] == bitset_view(self.9));
        assert(s[10] == bitset_view(self.10));
        assert(s[11] == bitset_view(self.11));
        assert(s[12] == bitset_view(self.12));
        assert forall|i: Index| #[trigger] all_of(s).contains(i) <==> self.and_view().contains(i) by {
            if all_of(s).contains(i) {
                assert(s[0].contains(i) && s[1].contains(i) && s[2].contains(i) && s[3].contains(i) && s[4].contains(i) && s[5].contains(i) && s[6].contains(i) && s[7].contains(i) && s[8].contains(i) && s[9].contains(i) && s[10].contains(i) && s[11].contains(i) && s[12].contains(i));
            }
            if self.and_view().contains(i) {
                assert forall|k: int| 0 <= k < s.len() implies #[trigger] s[k].contains(i) by {
                    assert(k == 0 || k == 1 || k == 2 || k == 3 || k == 4 || k == 5 || k == 6 || k == 7 || k == 8 || k == 9 || k == 10 || k == 11 || k == 12);
                }
            }
        }
        assert(self.and_view() =~= all_of(s));
    }

    fn and(self) -> (r: BitSet) {
        proof {
            // Unfolds this impl's `and_wf` in the `requires` inherited from the trait.
            assert(self.and_wf());
        }
        let (a0, a1, a2, a3, a4, a5, a6, a7, a8, a9, a10, a11, a12) = self;
        let (l, r) = ((a0, a1, a2, a3, a4, a5), (a6, a7, a8, a9, a10, a11, a12));
        let m = l.and();
        let rm = r.and();
        let res = bitset_intersection(m, &rm);
        proof {
            assert(bitset_view(res) =~= self.and_view());
        }
        res
    }
}

impl BitAnd for (BitSet, BitSet, BitSet, BitSet, BitSet, BitSet, BitSet, BitSet, BitSet, BitSet, BitSet, BitSet, BitSet, BitSet) {
    open spec fn and_wf(&self) -> bool {
        bitset_wf(self.0) && bitset_wf(self.1) && bitset_wf(self.2) && bitset_wf(self.3) && bitset_wf(self.4) && bitset_wf(self.5) && bitset_wf(self.6) && bitset_wf(self.7) && bitset_wf(self.8) && bitset_wf(self.9) && bitset_wf(self.10) && bitset_wf(self.11) && bitset_wf(self.12) && bitset_wf(self.13)
    }

    open spec fn members(&self) -> Seq<Set<Index>> {
        seq![bitset_view(self.0), bitset_view(self.1), bitset_view(self.2), bitset_view(self.3), bitset_view(self.4), bitset_view(self.5), bitset_view(self.6), bitset_view(self.7), bitset_view(self.8), bitset_view(self.9), bitset_view(self.10), bitset_view(self.11), bitset_view(self.12), bitset_view(self.13)]
    }

    open spec fn and_view(&self) -> Set<Index> {
        bitset_view(self.0).intersect(bitset_view(self.1)).intersect(bitset_view(self.2)).intersect(bitset_view(self.3)).intersect(bitset_view(self.4)).intersect(bitset_view(self.5)).intersect(bitset_view(self.6)).intersect(bitset_view(self.7)).intersect(bitset_view(self.8)).intersect(bitset_view(self.9)).intersect(bitset_view(self.10)).intersect(bitset_view(self.11)).intersect(bitset_view(self.12)).intersect(bitset_view(self.13))
    }

    proof fn lemma_and_members(&self) {
        let s = self.members();
        assert(s[0] == bitset_view(self.0));
        assert(s[1] == bitset_view(self.1));
        assert(s[2] == bitset_view(self.2));
        assert(s[3] == bitset_view(self.3));
        assert(s[4] == bitset_view(self.4));
        assert(s[5] == bitset_view(self.5));
        assert(s[6] == bitset_view(self.6));
        assert(s[7] == bitset_view(self.7));
        assert(s[8] == bitset_view(self.8));
        assert(s[9] == bitset_view(self.9));
        assert(s[10] == bitset_view(self.10));
        assert(s[11] == bitset_view(self.11));
        assert(s[12] == bitset_view(self.12));
        assert(s[13] == bitset_view(self.13));
        assert forall|i: Index| #[trigger] all_of(s).contains(i) <==> self.and_view().contains(i) by {
            if all_of(s).contains(i) {
                assert(s[0].contains(i) && s[1].contains(i) && s[2].contains(i) && s[3].contains(i) && s[4].contains(i) && s[5].contains(i) && s[6].contains(i) && s[7].contains(i) && s[8].contains(i) && s[9].contains(i) && s[10].contains(i) && s[11].contains(i) && s[12].contains(i) && s[13].contains(i));
            }
            if self.and_view().contains(i) {
                assert forall|k: int| 0 <= k < s.len() implies #[trigger] s[k].contains(i) by {
                    assert(k == 0 || k == 1 || k == 2 || k == 3 || k == 4 || k == 5 || k == 6 || k == 7 || k == 8 || k == 9 || k == 10 || k == 11 || k == 12 || k == 13);
                }
            }
        }
        assert(self.and_view() =~= all_of(s));
    }

    fn and(self) -> (r: BitSet) {
        proof {
            // Unfolds this impl's `and_wf` in the `requires` inherited from the trait.
            assert(self.and_wf());
        }
        let (a0, a1, a2, a3, a4, a5, a6, a7, a8, a9, a10, a11, a12, a13) = self;
        let (l, r) = ((a0, a1, a2, a3, a4, a5, a6), (a7, a8, a9, a10, a11, a12, a13));
        let m = l.and();
        let rm = r.and();
        let res = bitset_intersection(m, &rm);
        proof {
            assert(bitset_view(res) =~= self.and_view());
        }
        res
    }
}

impl BitAnd for (BitSet, BitSet, BitSet, BitSet, BitSet, BitSet, BitSet, BitSet, BitSet, BitSet, BitSet, BitSet, BitSet, BitSet, BitSet) {
    open spec fn and_wf(&self) -> bool {
        bitset_wf(self.0) && bitset_wf(self.1) && bitset_wf(self.2) && bitset_wf(self.3) && bitset_wf(self.4) && bitset_wf(self.5) && bitset_wf(self.6) && bitset_wf(self.7) && bitset_wf(self.8) && bitset_wf(self.9) && bitset_wf(self.10) && bitset_wf(self.11) && bitset_wf(self.12) && bitset_wf(self.13) && bitset_wf(self.14)
    }

    open spec fn members(&self) -> Seq<Set<Index>> {
        seq![bitset_view(self.0), bitset_view(self.1), bitset_view(self.2), bitset_view(self.3), bitset_view(self.4), bitset_view(self.5), bitset_view(self.6), bitset_view(self.7), bitset_view(self.8), bitset_view(self.9), bitset_view(self.10), bitset_view(self.11), bitset_view(self.12), bitset_view(self.13), bitset_view(self.14)]
    }

    open spec fn and_view(&self) -> Set<Index> {
        bitset_view(self.0).intersect(bitset_view(self.1)).intersect(bitset_view(self.2)).intersect(bitset_view(self.3)).intersect(bitset_view(self.4)).intersect(bitset_view(self.5)).intersect(bitset_view(self.6)).intersect(bitset_view(self.7)).intersect(bitset_view(self.8)).intersect(bitset_view(self.9)).intersect(bitset_view(self.10)).intersect(bitset_view(self.11)).intersect(bitset_view(self.12)).intersect(bitset_view(self.13)).intersect(bitset_view(self.14))
    }

    proof fn lemma_and_members(&self) {
        let s = self.members();
        assert(s[0] == bitset_view(self.0));
        assert(s[1] == bitset_view(self.1));
        assert(s[2] == bitset_view(self.2));
        assert(s[3] == bitset_view(self.3));
        assert(s[4] == bitset_view(self.4));
        assert(s[5] == bitset_view(self.5));
        assert(s[6] == bitset_view(self.6));
        assert(s[7] == bitset_view(self.7));
        assert(s[8] == bitset_view(self.8));
        assert(s[9] == bitset_view(self.9));
        assert(s[10] == bitset_view(self.10));
        assert(s[11] == bitset_view(self.11));
        assert(s[12] == bitset_view(self.12));
        assert(s[13] == bitset_view(self.13));
        assert(s[14] == bitset_view(self.14));
        assert forall|i: Index| #[trigger] all_of(s).contains(i) <==> self.and_view().contains(i) by {
            if all_of(s).contains(i) {
                assert(s[0].contains(i) && s[1].contains(i) && s[2].contains(i) && s[3].contains(i) && s[4].contains(i) && s[5].contains(i) && s[6].contains(i) && s[7].contains(i) && s[8].contains(i) && s[9].contains(i) && s[10].contains(i) && s[11].contains(i) && s[12].contains(i) && s[13].contains(i) && s[14].contains(i));
            }
            if self.and_view().contains(i) {
                assert forall|k: int| 0 <= k < s.len() implies #[trigger] s[k].contains(i) by {
                    assert(k == 0 || k == 1 || k == 2 || k == 3 || k == 4 || k == 5 || k == 6 || k == 7 || k == 8 || k == 9 || k == 10 || k == 11 || k == 12 || k == 13 || k == 14);
                }
            }
        }
        assert(self.and_view() =~= all_of(s));
    }

    fn and(self) -> (r: BitSet) {
        proof {
            // Unfolds this impl's `and_wf` in the `requires` inherited from the trait.
            assert(self.and_wf());
        }
        let (a0, a1, a2, a3, a4, a5, a6, a7, a8, a9, a10, a11, a12, a13, a14) = self;
        let (l, r) = ((a0, a1, a2, a3, a4, a5, a6), (a7, a8, a9, a10, a11, a12, a13, a14));
        let m = l.and();
        let rm = r.and();
        let res = bitset_intersection(m, &rm);
        proof {
            assert(bitset_view(res) =~= self.and_view());
        }
        res
    }
}

impl BitAnd for (BitSet, BitSet, BitSet, BitSet, BitSet, BitSet, BitSet, BitSet, BitSet, BitSet, BitSet, BitSet, BitSet, BitSet, BitSet, BitSet) {
    open spec fn and_wf(&self) -> bool {
        bitset_wf(self.0) && bitset_wf(self.1) && bitset_wf(self.2) && bitset_wf(self.3) && bitset_wf(self.4) && bitset_wf(self.5) && bitset_wf(self.6) && bitset_wf(self.7) && bitset_wf(self.8) && bitset_wf(self.9) && bitset_wf(self.10) && bitset_wf(self.11) && bitset_wf(self.12) && bitset_wf(self.13) && bitset_wf(self.14) && bitset_wf(self.15)
    }

    open spec fn members(&self) -> Seq<Set<Index>> {
        seq![bitset_view(self.0), bitset_view(self.1), bitset_view(self.2), bitset_view(self.3), bitset_view(self.4), bitset_view(self.5), bitset_view(self.6), bitset_view(self.7), bitset_view(self.8), bitset_view(self.9), bitset_view(self.10), bitset_view(self.11), bitset_view(self.12), bitset_view(self.13), bitset_view(self.14), bitset_view(self.15)]
    }

    open spec fn and_view(&self) -> Set<Index> {
        bitset_view(self.0).intersect(bitset_view(self.1)).intersect(bitset_view(self.2)).intersect(bitset_view(self.3)).intersect(bitset_view(self.4)).intersect(bitset_view(self.5)).intersect(bitset_view(self.6)).intersect(bitset_view(self.7)).intersect(bitset_view(self.8)).intersect(bitset_view(self.9)).intersect(bitset_view(self.10)).intersect(bitset_view(self.11)).intersect(bitset_view(self.12)).intersect(bitset_view(self.13)).intersect(bitset_view(self.14)).intersect(bitset_view(self.15))
    }

    proof fn lemma_and_members(&self) {
        let s = self.members();
        assert(s[0] == bitset_view(self.0));
        assert(s[1] == bitset_view(self.1));
        assert(s[2] == bitset_view(self.2));
        assert(s[3] == bitset_view(self.3));
        assert(s[4] == bitset_view(self.4));
        assert(s[5] == bitset_view(self.5));
        assert(s[6] == bitset_view(self.6));
        assert(s[7] == bitset_view(self.7));
        assert(s[8] == bitset_view(self.8));
        assert(s[9] == bitset_view(self.9));
        assert(s[10] == bitset_view(self.10));
        assert(s[11] == bitset_view(self.11));
        assert(s[12] == bitset_view(self.12));
        assert(s[13] == bitset_view(self.13));
        assert(s[14] == bitset_view(self.14));
        assert(s[15] == bitset_view(self.15));
        assert forall|i: Index| #[trigger] all_of(s).contains(i) <==> self.and_view().contains(i) by {
            if all_of(s).contains(i) {
                assert(s[0].contains(i) && s[1].contains(i) && s[2].contains(i) && s[3].contains(i) && s[4].contains(i) && s[5].contains(i) && s[6].contains(i) && s[7].contains(i) && s[8].contains(i) && s[9].contains(i) && s[10].contains(i) && s[11].contains(i) && s[12].contains(i) && s[13].contains(i) && s[14].contains(i) && s[15].contains(i));
            }
            if self.and_view().contains(i) {
                assert forall|k: int| 0 <= k < s.len() implies #[trigger] s[k].contains(i) by {
                    assert(k == 0 || k == 1 || k == 2 || k == 3 || k == 4 || k == 5 || k == 6 || k == 7 || k == 8 || k == 9 || k == 10 || k == 11 || k == 12 || k == 13 || k == 14 || k == 15);
                }
            }
        }
        assert(self.and_view() =~= all_of(s));
    }

    fn and(self) -> (r: BitSet) {
        proof {
            // Unfolds this impl's `and_wf` in the `requires` inherited from the trait.
            assert(self.and_wf());
        }
        let (a0, a1, a2, a3, a4, a5, a6, a7, a8, a9, a10, a11, a12, a13, a14, a15) = self;
        let (l, r) = ((a0, a1, a2, a3, a4, a5, a6, a7), (a8, a9, a10, a11, a12, a13, a14, a15));
        let m = l.and();
        let rm = r.and();
        let res = bitset_intersection(m, &rm);
        proof {
            assert(bitset_view(res) =~= self.and_view());
        }
        res
    }
}

/// Intersecting a lone bit set, alone or in a one-element tuple, keeps its indices.
pub proof fn law_and_single(m: BitSet)
    ensures
        (m,).and_view() == m.and_view(),
        m.and_view() == bitset_view(m),
{
}

/// Intersections that hold the same bit sets, in whatever order and however
/// often, hold the same indices: `and` does not depend on the order of the
/// tuple.
pub proof fn law_and_reorder<T: BitAnd, U: BitAnd>(t: T, u: U)
    requires
        t.members().to_set() == u.members().to_set(),
    ensures
        t.and_view() == u.and_view(),
{
    t.lemma_and_members();
    u.lemma_and_members();
    lemma_all_of_same_sets(t.members(), u.members());
    lemma_all_of_same_sets(u.members(), t.members());
    assert(all_of(t.members()) =~= all_of(u.members()));
}

/// What every set of `t` holds, every set of `s` holds, where `s` holds no
/// set that `t` does not.
proof fn lemma_all_of_same_sets(s: Seq<Set<Index>>, t: Seq<Set<Index>>)
    requires
        s.to_set() == t.to_set(),
    ensures
        forall|i: Index| #[trigger] all_of(t).contains(i) ==> all_of(s).contains(i),
{
    assert forall|i: Index| #[trigger] all_of(t).contains(i) implies all_of(s).contains(i) by {
        assert forall|k: int| 0 <= k < s.len() implies #[trigger] s[k].contains(i) by {
            assert(s.contains(s[k]));
            assert(s.to_set().contains(s[k]));
            assert(t.to_set().contains(s[k]));
            let j = choose|j: int| 0 <= j < t.len() && t[j] == s[k];
            assert(t[j].contains(i));
        }
    }
}

/// Intersecting 2 bit sets: an index is in the result exactly when every
/// one of them holds it.
pub proof fn law_and2(t: (BitSet, BitSet), i: Index)
    ensures
        t.and_view().contains(i) <==> (bitset_view(t.0).contains(i) && bitset_view(t.1).contains(i)),
{
}

/// Intersecting 3 bit sets: an index is in the result exactly when every
/// one of them holds it.
pub proof fn law_and3(t: (BitSet, BitSet, BitSet), i: Index)
    ensures
        t.and_view().contains(i) <==> (bitset_view(t.0).contains(i) && bitset_view(t.1).contains(i) && bitset_view(t.2).contains(i)),
{
}

/// Intersecting 4 bit sets: an index is in the result exactly when every
/// one of them holds it.
pub proof fn law_and4(t: (BitSet, BitSet, BitSet, BitSet), i: Index)
    ensures
        t.and_view().contains(i) <==> (bitset_view(t.0).contains(i) && bitset_view(t.1).contains(i) && bitset_view(t.2).contains(i) && bitset_view(t.3).contains(i)),
{
}

/// Intersecting 5 bit sets: an index is in the result exactly when every
/// one of them holds it.
pub proof fn law_and5(t: (BitSet, BitSet, BitSet, BitSet, BitSet), i: Index)
    ensures
        t.and_view().contains(i) <==> (bitset_view(t.0).contains(i) && bitset_view(t.1).contains(i) && bitset_view(t.2).contains(i) && bitset_view(t.3).contains(i) && bitset_view(t.4).contains(i)),
{
}

/// Intersecting 6 bit sets: an index is in the result exactly when every
/// one of them holds it.
pub proof fn law_and6(t: (BitSet, BitSet, BitSet, BitSet, BitSet, BitSet), i: Index)
    ensures
        t.and_view().contains(i) <==> (bitset_view(t.0).contains(i) && bitset_view(t.1).contains(i) && bitset_view(t.2).contains(i) && bitset_view(t.3).contains(i) && bitset_view(t.4).contains(i) && bitset_view(t.5).contains(i)),
{
}

/// Intersecting 7 bit sets: an index is in the result exactly when every
/// one of them holds it.
pub proof fn law_and7(t: (BitSet, BitSet, BitSet, BitSet, BitSet, BitSet, BitSet), i: Index)
    ensures
        t.and_view().contains(i) <==> (bitset_view(t.0).contains(i) && bitset_view(t.1).contains(i) && bitset_view(t.2).contains(i) && bitset_view(t.3).contains(i) && bitset_view(t.4).contains(i) && bitset_view(t.5).contains(i) && bitset_view(t.6).contains(i)),
{
}

/// Intersecting 8 bit sets: an index is in the result exactly when every
/// one of them holds it.
pub proof fn law_and8(t: (BitSet, BitSet, BitSet, BitSet, BitSet, BitSet, BitSet, BitSet), i: Index)
    ensures
        t.and_view().contains(i) <==> (bitset_view(t.0).contains(i) && bitset_view(t.1).contains(i) && bitset_view(t.2).contains(i) && bitset_view(t.3).contains(i) && bitset_view(t.4).contains(i) && bitset_view(t.5).contains(i) && bitset_view(t.6).contains(i) && bitset_view(t.7).contains(i)),
{
}

/// Intersecting 9 bit sets: an index is in the result exactly when every
/// one of them holds it.
pub proof fn law_and9(t: (BitSet, BitSet, BitSet, BitSet, BitSet, BitSet, BitSet, BitSet, BitSet), i: Index)
    ensures
        t.and_view().contains(i) <==> (bitset_view(t.0).contains(i) && bitset_view(t.1).contains(i) && bitset_view(t.2).contains(i) && bitset_view(t.3).contains(i) && bitset_view(t.4).contains(i) && bitset_view(t.5).contains(i) && bitset_view(t.6).contains(i) && bitset_view(t.7).contains(i) && bitset_view(t.8).contains(i)),
{
}

/// Intersecting 10 bit sets: an index is in the result exactly when every
/// one of them holds it.
pub proof fn law_and10(t: (BitSet, BitSet, BitSet, BitSet, BitSet, BitSet, BitSet, BitSet, BitSet, BitSet), i: Index)
    ensures
        t.and_view().contains(i) <==> (bitset_view(t.0).contains(i) && bitset_view(t.1).contains(i) && bitset_view(t.2).contains(i) && bitset_view(t.3).contains(i) && bitset_view(t.4).contains(i) && bitset_view(t.5).contains(i) && bitset_view(t.6).contains(i) && bitset_view(t.7).contains(i) && bitset_view(t.8).contains(i) && bitset_view(t.9).contains(i)),
{
}

/// Intersecting 11 bit sets: an index is in the result exactly when every
/// one of them holds it.
pub proof fn law_and11(t: (BitSet, BitSet, BitSet, BitSet, BitSet, BitSet, BitSet, BitSet, BitSet, BitSet, BitSet), i: Index)
    ensures
        t.and_view().contains(i) <==> (bitset_view(t.0).contains(i) && bitset_view(t.1).contains(i) && bitset_view(t.2).contains(i) && bitset_view(t.3).contains(i) && bitset_view(t.4).contains(i) && bitset_view(t.5).contains(i) && bitset_view(t.6).contains(i) && bitset_view(t.7).contains(i) && bitset_view(t.8).contains(i) && bitset_view(t.9).contains(i) && bitset_view(t.10).contains(i)),
{
}

/// Intersecting 12 bit sets: an index is in the result exactly when every
/// one of them holds it.
pub proof fn law_and12(t: (BitSet, BitSet, BitSet, BitSet, BitSet, BitSet, BitSet, BitSet, BitSet, BitSet, BitSet, BitSet), i: Index)
    ensures
        t.and_view().contains(i) <==> (bitset_view(t.0).contains(i) && bitset_view(t.1).contains(i) && bitset_view(t.2).contains(i) && bitset_view(t.3).contains(i) && bitset_view(t.4).contains(i) && bitset_view(t.5).contains(i) && bitset_view(t.6).contains(i) && bitset_view(t.7).contains(i) && bitset_view(t.8).contains(i) && bitset_view(t.9).contains(i) && bitset_view(t.10).contains(i) && bitset_view(t.11).contains(i)),
{
}

/// Intersecting 13 bit sets: an index is in the result exactly when every
/// one of them holds it.
pub proof fn law_and13(t: (BitSet, BitSet, BitSet, BitSet, BitSet, BitSet, BitSet, BitSet, BitSet, BitSet, BitSet, BitSet, BitSet), i: Index)
    ensures
        t.and_view().contains(i) <==> (bitset_view(t.0).contains(i) && bitset_view(t.1).contains(i) && bitset_view(t.2).contains(i) && bitset_view(t.3).contains(i) && bitset_view(t.4).contains(i) && bitset_view(t.5).contains(i) && bitset_view(t.6).contains(i) && bitset_view(t.7).contains(i) && bitset_view(t.8).contains(i) && bitset_view(t.9).contains(i) && bitset_view(t.10).contains(i) && bitset_view(t.11).contains(i) && bitset_view(t.12).contains(i)),
{
}

/// Intersecting 14 bit sets: an index is in the result exactly when every
/// one of them holds it.
pub proof fn law_and14(t: (BitSet, BitSet, BitSet, BitSet, BitSet, BitSet, BitSet, BitSet, BitSet, BitSet, BitSet, BitSet, BitSet, BitSet), i: Index)
    ensures
        t.and_view().contains(i) <==> (bitset_view(t.0).contains(i) && bitset_view(t.1).contains(i) && bitset_view(t.2).contains(i) && bitset_view(t.3).contains(i) && bitset_view(t.4).contains(i) && bitset_view(t.5).contains(i) && bitset_view(t.6).contains(i) && bitset_view(t.7).contains(i) && bitset_view(t.8).contains(i) && bitset_view(t.9).contains(i) && bitset_view(t.10).contains(i) && bitset_view(t.11).contains(i) && bitset_view(t.12).contains(i) && bitset_view(t.13).contains(i)),
{
}

/// Intersecting 15 bit sets: an index is in the result exactly when every
/// one of them holds it.
pub proof fn law_and15(t: (BitSet, BitSet, BitSet, BitSet, BitSet, BitSet, BitSet, BitSet, BitSet, BitSet, BitSet, BitSet, BitSet, BitSet, BitSet), i: Index)
    ensures
        t.and_view().contains(i) <==> (bitset_view(t.0).contains(i) && bitset_view(t.1).contains(i) && bitset_view(t.2).contains(i) && bitset_view(t.3).contains(i) && bitset_view(t.4).contains(i) && bitset_view(t.5).contains(i) && bitset_view(t.6).contains(i) && bitset_view(t.7).contains(i) && bitset_view(t.8).contains(i) && bitset_view(t.9).contains(i) && bitset_view(t.10).contains(i) && bitset_view(t.11).contains(i) && bitset_view(t.12).contains(i) && bitset_view(t.13).contains(i) && bitset_view(t.14).contains(i)),
{
}

/// Intersecting 16 bit sets: an index is in the result exactly when every
/// one of them holds it.
pub proof fn law_and16(t: (BitSet, BitSet, BitSet, BitSet, BitSet, BitSet, BitSet, BitSet, BitSet, BitSet, BitSet, BitSet, BitSet, BitSet, BitSet, BitSet), i: Index)
    ensures
        t.and_view().contains(i) <==> (bitset_view(t.0).contains(i) && bitset_view(t.1).contains(i) && bitset_view(t.2).contains(i) && bitset_view(t.3).contains(i) && bitset_view(t.4).contains(i) && bitset_view(t.5).contains(i) && bitset_view(t.6).contains(i) && bitset_view(t.7).contains(i) && bitset_view(t.8).contains(i) && bitset_view(t.9).contains(i) && bitset_view(t.10).contains(i) && bitset_view(t.11).contains(i) && bitset_view(t.12).contains(i) && bitset_view(t.13).contains(i) && bitset_view(t.14).contains(i) && bitset_view(t.15).contains(i)),
{
}

} // verus!

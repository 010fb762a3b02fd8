//! Joining storages: the mask of a join is the intersection of the masks of
//! its parts, and iterating a join visits the indices of that mask in
//! increasing order, handing out the joined values at each one.
use vstd::prelude::*;
use hibitset::{BitIter, BitSet};
use crate::bitset::{
    Index, bitset_view, bitset_wf, bit_iter_view, bit_iter_wf, bitset_iter, bit_iter_next,
    bitset_clone,
};

verus! {

/// The least index of a set (meaningful where the set is not empty).
pub open spec fn least_index(s: Set<Index>) -> Index {
    choose|k: Index| s.contains(k) && forall|j: Index| #[trigger] s.contains(j) ==> k <= j
}

/// The purpose of the `Join` trait is to provide a way
/// to access multiple storages at the same time with
/// the merged bit set.
pub trait Join: Sized {
    /// Type of joined components.
    type Type;
    /// Type of joined storages.
    type Value;

    /// The indices that this join holds.
    spec fn mask_view(&self) -> Set<Index>;

    /// The storages that opening this join hands out.
    spec fn value_view(&self) -> Self::Value;

    /// Whether `get` may be asked for `id` on these storages.
    spec fn holds(value: Self::Value, id: Index) -> bool;

    /// What `get` hands out for `id` from these storages.
    spec fn get_spec(value: Self::Value, id: Index) -> Self::Type;

    /// The storages after `get` was asked for `id`.
    spec fn value_after_get(value: Self::Value, id: Index) -> Self::Value;

    /// Open this join by returning the mask and the storages.
    fn open(self) -> (r: (BitSet, Self::Value))
        ensures
            bitset_wf(r.0),
            bitset_view(r.0) == self.mask_view(),
            r.1 == self.value_view(),
            forall|i: Index| #[trigger] self.mask_view().contains(i) ==> Self::holds(r.1, i),
    ;

    /// Get a joined component value by a given index.
    fn get(value: &mut Self::Value, id: Index) -> (r: Self::Type)
        requires
            Self::holds(*old(value), id),
        ensures
            *final(value) == Self::value_after_get(*old(value), id),
            forall|j: Index| #[trigger] Self::holds(*old(value), j) ==> Self::holds(*final(value), j),
            r == Self::get_spec(*old(value), id),
    ;
}

/// Every set of indices that holds some index has a least one, which
/// `least_index` names: so a join iterator with indices left always has an
/// index to visit next.
pub proof fn lemma_least_index(s: Set<Index>, x: Index)
    requires
        s.contains(x),
    ensures
        s.contains(least_index(s)),
        forall|j: Index| #[trigger] s.contains(j) ==> least_index(s) <= j,
    decreases x,
{
    if exists|y: Index| #[trigger] s.contains(y) && y < x {
        let y = choose|y: Index| #[trigger] s.contains(y) && y < x;
        lemma_least_index(s, y);
    } else {
        assert(s.contains(x) && forall|j: Index| #[trigger] s.contains(j) ==> x <= j);
    }
}

/// Every set of indices is finite.
pub proof fn lemma_index_set_finite(s: Set<Index>)
    ensures
        s.finite(),
{
    <Index as vstd::set_lib::FiniteFull>::full_properties();
    vstd::set_lib::lemma_set_subset_finite(Set::<Index>::full(), s);
}

/// Iterating over a join: every type that is a `Join` has it.
pub trait JoinIterate: Join {
    /// Create a joined iterator over the contents.
    fn iter(self) -> (it: JoinIter<Self>)
        ensures
            it.wf(),
            it.keys_view() == self.mask_view(),
            it.mask_opened() == self.mask_view(),
            it.visited() == 0,
            it.values_view() == self.value_view(),
    ;
}

impl<J: Join> JoinIterate for J {
    fn iter(self) -> (it: JoinIter<J>) {
        JoinIter::new(self)
    }
}

/// `JoinIter` is an iterator over a group of storages.
#[must_use]
pub struct JoinIter<J: Join> {
    keys: BitIter<BitSet>,
    values: J::Value,
    opened: Ghost<Set<Index>>,
    visited: Ghost<nat>,
}

impl<J: Join> JoinIter<J> {
    /// The indices that are yet to be visited.
    pub closed spec fn keys_view(&self) -> Set<Index> {
        bit_iter_view(self.keys)
    }

    /// The opened storages.
    pub closed spec fn values_view(&self) -> J::Value {
        self.values
    }

    /// The mask that opening the join gave.
    pub closed spec fn mask_opened(&self) -> Set<Index> {
        self.opened@
    }

    /// How many indices were visited so far.
    pub closed spec fn visited(&self) -> nat {
        self.visited@
    }

    /// The keys come from an iterator over a consistent set; every index yet
    /// to be visited is in the opened mask and may be asked of the storages;
    /// the visited indices and those left make up the opened mask.
    pub closed spec fn wf(&self) -> bool {
        &&& bit_iter_wf(self.keys)
        &&& forall|i: Index| #[trigger] self.keys_view().contains(i) ==> J::holds(self.values, i)
        &&& self.keys_view().subset_of(self.opened@)
        &&& self.visited@ + self.keys_view().len() == self.opened@.len()
    }

    /// Create a new join iterator.
    pub fn new(j: J) -> (it: Self)
        ensures
            it.wf(),
            it.keys_view() == j.mask_view(),
            it.mask_opened() == j.mask_view(),
            it.visited() == 0,
            it.values_view() == j.value_view(),
    {
        let ghost mask = j.mask_view();
        let (keys, values) = j.open();
        let it = JoinIter {
            keys: bitset_iter(keys),
            values: values,
            opened: Ghost(mask),
            visited: Ghost(0),
        };
        proof {
            assert(it.keys_view() =~= mask);
        }
        it
    }

    /// Visit the least index that is left, and hand out the joined value there.
    pub fn next(&mut self) -> (r: Option<J::Type>)
        requires
            old(self).wf(),
        ensures
            final(self).wf(),
            final(self).mask_opened() == old(self).mask_opened(),
            r is Some <==> old(self).visited() < old(self).mask_opened().len(),
            r is None ==> {
                &&& old(self).keys_view() == Set::<Index>::empty()
                &&& final(self).keys_view() == old(self).keys_view()
                &&& final(self).values_view() == old(self).values_view()
                &&& final(self).visited() == old(self).visited()
            },
            r is Some ==> {
                let k = least_index(old(self).keys_view());
                &&& old(self).keys_view().contains(k)
                &&& old(self).mask_opened().contains(k)
                &&& r == Some(J::get_spec(old(self).values_view(), k))
                &&& final(self).values_view() == J::value_after_get(old(self).values_view(), k)
                &&& final(self).keys_view() == old(self).keys_view().remove(k)
                &&& final(self).visited() == old(self).visited() + 1
                &&& forall|j: Index| #[trigger] final(self).keys_view().contains(j) ==> k < j
            },
    {
        proof {
            lemma_index_set_finite(self.keys_view());
            lemma_index_set_finite(self.opened@);
        }
        match bit_iter_next(&mut self.keys) {
            Some(idx) => {
                proof {
                    let s = bit_iter_view(old(self).keys);
                    let k = least_index(s);
                    assert(s.contains(k) && forall|j: Index| #[trigger] s.contains(j) ==> k <= j);
                    assert(k <= idx && idx <= k);
                    assert(old(self).keys_view().contains(idx));
                    assert(self.keys_view().len() == old(self).keys_view().len() - 1);
                    self.visited = Ghost(self.visited@ + 1);
                }
                let ghost before = self.values;
                let r = J::get(&mut self.values, idx);
                proof {
                    assert forall|j: Index| #[trigger] self.keys_view().contains(j) implies J::holds(
                        self.values,
                        j,
                    ) by {
                        assert(old(self).keys_view().contains(j));
                        assert(J::holds(before, j));
                    }
                }
                Some(r)
            },
            None => {
                proof {
                    assert(old(self).keys_view().len() == 0);
                }
                None
            },
        }
    }
}

/// Implementors of `MaskClone` can join bitsets using `Join`
/// without returning the contents.
pub trait MaskClone: Sized {
    /// The indices that a cloned mask holds.
    spec fn mask_clone_view(&self) -> Set<Index>;

    /// Create a join that does not return the contents.
    fn check(&self) -> (r: CheckJoin)
        ensures
            r.mask_set() == self.mask_clone_view(),
    {
        CheckJoin { mask: self.mask_clone() }
    }

    /// Get a cloned bit mask.
    fn mask_clone(&self) -> (r: BitSet)
        ensures
            bitset_wf(r),
            bitset_view(r) == self.mask_clone_view(),
    ;
}

/// Holder for bitmask of joins
pub struct CheckJoin {
    mask: BitSet,
}

impl CheckJoin {
    /// The held mask is consistent.
    #[verifier::type_invariant]
    spec fn inv(&self) -> bool {
        bitset_wf(self.mask)
    }

    /// The indices of the held mask.
    pub closed spec fn mask_set(&self) -> Set<Index> {
        bitset_view(self.mask)
    }
}

impl Join for CheckJoin {
    type Type = ();
    type Value = ();

    open spec fn mask_view(&self) -> Set<Index> {
        self.mask_set()
    }

    open spec fn value_view(&self) -> () {
        ()
    }

    open spec fn holds(value: (), id: Index) -> bool {
        true
    }

    open spec fn get_spec(value: (), id: Index) -> () {
        ()
    }

    open spec fn value_after_get(value: (), id: Index) -> () {
        ()
    }

    fn open(self) -> (r: (BitSet, ())) {
        proof {
            use_type_invariant(&self);
        }
        (self.mask, ())
    }

    fn get(value: &mut (), id: Index) -> (r: ()) {
        ()
    }
}

impl<'a> Join for &'a CheckJoin {
    type Type = ();
    type Value = ();

    open spec fn mask_view(&self) -> Set<Index> {
        self.mask_set()
    }

    open spec fn value_view(&self) -> () {
        ()
    }

    open spec fn holds(value: (), id: Index) -> bool {
        true
    }

    open spec fn get_spec(value: (), id: Index) -> () {
        ()
    }

    open spec fn value_after_get(value: (), id: Index) -> () {
        ()
    }

    fn open(self) -> (r: (BitSet, ())) {
        proof {
            use_type_invariant(self);
        }
        (bitset_clone(&self.mask), ())
    }

    fn get(value: &mut (), id: Index) -> (r: ()) {
        ()
    }
}

/// Opening a `CheckJoin`, by value or by reference, gives exactly the
/// indices of the mask it holds, and asks nothing of its unit storages.
pub proof fn law_check_join_open(c: CheckJoin, i: Index)
    ensures
        c.mask_view() == c.mask_set(),
        <&CheckJoin as Join>::mask_view(&&c) == c.mask_set(),
        c.value_view() == (),
        <&CheckJoin as Join>::value_view(&&c) == (),
        <CheckJoin as Join>::holds((), i),
        <&CheckJoin as Join>::holds((), i),
{
}

/// A check of a join holds, when opened by value or by reference, exactly
/// the indices of the cloned mask.
pub proof fn law_check_holds_clone<M: MaskClone>(m: M, c: CheckJoin)
    requires
        c.mask_set() == m.mask_clone_view(),
    ensures
        c.mask_view() == m.mask_clone_view(),
        <&CheckJoin as Join>::mask_view(&&c) == m.mask_clone_view(),
{
}

} // verus!

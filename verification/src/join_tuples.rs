//! `Join` and `MaskClone` for tuples of joins: the mask of a tuple is the
//! intersection of the masks of its members, and its value at an index is the
//! tuple of their values there.
use vstd::prelude::*;
use hibitset::BitSet;
use crate::bitset::Index;
use crate::bit_and::BitAnd;
use crate::join::{Join, MaskClone};

verus! {

impl<A: Join> Join for (A,) {
    type Type = (A::Type,);
    type Value = (A::Value,);

    open spec fn mask_view(&self) -> Set<Index> {
        self.0.mask_view()
    }

    open spec fn value_view(&self) -> (A::Value,) {
        (self.0.value_view(),)
    }

    open spec fn holds(value: (A::Value,), id: Index) -> bool {
        A::holds(value.0, id)
    }

    open spec fn get_spec(value: (A::Value,), id: Index) -> (A::Type,) {
        (A::get_spec(value.0, id),)
    }

    open spec fn value_after_get(value: (A::Value,), id: Index) -> (A::Value,) {
        (A::value_after_get(value.0, id),)
    }

    fn open(self) -> (r: (BitSet, (A::Value,))) {
        let (a0,) = self;
        let (m0, v0) = a0.open();
        ((m0,).and(), (v0,))
    }

    fn get(value: &mut (A::Value,), id: Index) -> (r: (A::Type,)) {
        let r0 = A::get(&mut value.0, id);
        (r0,)
    }
}

impl<A: MaskClone> MaskClone for (A,) {
    open spec fn mask_clone_view(&self) -> Set<Index> {
        self.0.mask_clone_view()
    }

    fn mask_clone(&self) -> (r: BitSet) {
        let m0 = self.0.mask_clone();
        (m0,).and()
    }
}

impl<A: Join, B: Join> Join for (A, B) {
    type Type = (A::Type, B::Type);
    type Value = (A::Value, B::Value);

    open spec fn mask_view(&self) -> Set<Index> {
        self.0.mask_view().intersect(self.1.mask_view())
    }

    open spec fn value_view(&self) -> (A::Value, B::Value) {
        (self.0.value_view(), self.1.value_view())
    }

    open spec fn holds(value: (A::Value, B::Value), id: Index) -> bool {
        A::holds(value.0, id) && B::holds(value.1, id)
    }

    open spec fn get_spec(value: (A::Value, B::Value), id: Index) -> (A::Type, B::Type) {
        (A::get_spec(value.0, id), B::get_spec(value.1, id))
    }

    open spec fn value_after_get(value: (A::Value, B::Value), id: Index) -> (A::Value, B::Value) {
        (A::value_after_get(value.0, id), B::value_after_get(value.1, id))
    }

    fn open(self) -> (r: (BitSet, (A::Value, B::Value))) {
        let (a0, a1) = self;
        let (m0, v0) = a0.open();
        let (m1, v1) = a1.open();
        ((m0, m1).and(), (v0, v1))
    }

    fn get(value: &mut (A::Value, B::Value), id: Index) -> (r: (A::Type, B::Type)) {
        let r0 = A::get(&mut value.0, id);
        let r1 = B::get(&mut value.1, id);
        (r0, r1)
    }
}

impl<A: MaskClone, B: MaskClone> MaskClone for (A, B) {
    open spec fn mask_clone_view(&self) -> Set<Index> {
        self.0.mask_clone_view().intersect(self.1.mask_clone_view())
    }

    fn mask_clone(&self) -> (r: BitSet) {
        let m0 = self.0.mask_clone();
        let m1 = self.1.mask_clone();
        (m0, m1).and()
    }
}

impl<A: Join, B: Join, C: Join> Join for (A, B, C) {
    type Type = (A::Type, B::Type, C::Type);
    type Value = (A::Value, B::Value, C::Value);

    open spec fn mask_view(&self) -> Set<Index> {
        self.0.mask_view().intersect(self.1.mask_view()).intersect(self.2.mask_view())
    }

    open spec fn value_view(&self) -> (A::Value, B::Value, C::Value) {
        (self.0.value_view(), self.1.value_view(), self.2.value_view())
    }

    open spec fn holds(value: (A::Value, B::Value, C::Value), id: Index) -> bool {
        A::holds(value.0, id) && B::holds(value.1, id) && C::holds(value.2, id)
    }

    open spec fn get_spec(value: (A::Value, B::Value, C::Value), id: Index) -> (A::Type, B::Type, C::Type) {
        (A::get_spec(value.0, id), B::get_spec(value.1, id), C::get_spec(value.2, id))
    }

    open spec fn value_after_get(value: (A::Value, B::Value, C::Value), id: Index) -> (A::Value, B::Value, C::Value) {
        (A::value_after_get(value.0, id), B::value_after_get(value.1, id), C::value_after_get(value.2, id))
    }

    fn open(self) -> (r: (BitSet, (A::Value, B::Value, C::Value))) {
        let (a0, a1, a2) = self;
        let (m0, v0) = a0.open();
        let (m1, v1) = a1.open();
        let (m2, v2) = a2.open();
        ((m0, m1, m2).and(), (v0, v1, v2))
    }

    fn get(value: &mut (A::Value, B::Value, C::Value), id: Index) -> (r: (A::Type, B::Type, C::Type)) {
        let r0 = A::get(&mut value.0, id);
        let r1 = B::get(&mut value.1, id);
        let r2 = C::get(&mut value.2, id);
        (r0, r1, r2)
    }
}

impl<A: MaskClone, B: MaskClone, C: MaskClone> MaskClone for (A, B, C) {
    open spec fn mask_clone_view(&self) -> Set<Index> {
        self.0.mask_clone_view().intersect(self.1.mask_clone_view()).intersect(self.2.mask_clone_view())
    }

    fn mask_clone(&self) -> (r: BitSet) {
        let m0 = self.0.mask_clone();
        let m1 = self.1.mask_clone();
        let m2 = self.2.mask_clone();
        (m0, m1, m2).and()
    }
}

impl<A: Join, B: Join, C: Join, D: Join> Join for (A, B, C, D) {
    type Type = (A::Type, B::Type, C::Type, D::Type);
    type Value = (A::Value, B::Value, C::Value, D::Value);

    open spec fn mask_view(&self) -> Set<Index> {
        self.0.mask_view().intersect(self.1.mask_view()).intersect(self.2.mask_view()).intersect(self.3.mask_view())
    }

    open spec fn value_view(&self) -> (A::Value, B::Value, C::Value, D::Value) {
        (self.0.value_view(), self.1.value_view(), self.2.value_view(), self.3.value_view())
    }

    open spec fn holds(value: (A::Value, B::Value, C::Value, D::Value), id: Index) -> bool {
        A::holds(value.0, id) && B::holds(value.1, id) && C::holds(value.2, id) && D::holds(value.3, id)
    }

    open spec fn get_spec(value: (A::Value, B::Value, C::Value, D::Value), id: Index) -> (A::Type, B::Type, C::Type, D::Type) {
        (A::get_spec(value.0, id), B::get_spec(value.1, id), C::get_spec(value.2, id), D::get_spec(value.3, id))
    }

    open spec fn value_after_get(value: (A::Value, B::Value, C::Value, D::Value), id: Index) -> (A::Value, B::Value, C::Value, D::Value) {
        (A::value_after_get(value.0, id), B::value_after_get(value.1, id), C::value_after_get(value.2, id), D::value_after_get(value.3, id))
    }

    fn open(self) -> (r: (BitSet, (A::Value, B::Value, C::Value, D::Value))) {
        let (a0, a1, a2, a3) = self;
        let (m0, v0) = a0.open();
        let (m1, v1) = a1.open();
        let (m2, v2) = a2.open();
        let (m3, v3) = a3.open();
        ((m0, m1, m2, m3).and(), (v0, v1, v2, v3))
    }

    fn get(value: &mut (A::Value, B::Value, C::Value, D::Value), id: Index) -> (r: (A::Type, B::Type, C::Type, D::Type)) {
        let r0 = A::get(&mut value.0, id);
        let r1 = B::get(&mut value.1, id);
        let r2 = C::get(&mut value.2, id);
        let r3 = D::get(&mut value.3, id);
        (r0, r1, r2, r3)
    }
}

impl<A: MaskClone, B: MaskClone, C: MaskClone, D: MaskClone> MaskClone for (A, B, C, D) {
    open spec fn mask_clone_view(&self) -> Set<Index> {
        self.0.mask_clone_view().intersect(self.1.mask_clone_view()).intersect(self.2.mask_clone_view()).intersect(self.3.mask_clone_view())
    }

    fn mask_clone(&self) -> (r: BitSet) {
        let m0 = self.0.mask_clone();
        let m1 = self.1.mask_clone();
        let m2 = self.2.mask_clone();
        let m3 = self.3.mask_clone();
        (m0, m1, m2, m3).and()
    }
}

impl<A: Join, B: Join, C: Join, D: Join, E: Join> Join for (A, B, C, D, E) {
    type Type = (A::Type, B::Type, C::Type, D::Type, E::Type);
    type Value = (A::Value, B::Value, C::Value, D::Value, E::Value);

    open spec fn mask_view(&self) -> Set<Index> {
        self.0.mask_view().intersect(self.1.mask_view()).intersect(self.2.mask_view()).intersect(self.3.mask_view()).intersect(self.4.mask_view())
    }

    open spec fn value_view(&self) -> (A::Value, B::Value, C::Value, D::Value, E::Value) {
        (self.0.value_view(), self.1.value_view(), self.2.value_view(), self.3.value_view(), self.4.value_view())
    }

    open spec fn holds(value: (A::Value, B::Value, C::Value, D::Value, E::Value), id: Index) -> bool {
        A::holds(value.0, id) && B::holds(value.1, id) && C::holds(value.2, id) && D::holds(value.3, id) && E::holds(value.4, id)
    }

    open spec fn get_spec(value: (A::Value, B::Value, C::Value, D::Value, E::Value), id: Index) -> (A::Type, B::Type, C::Type, D::Type, E::Type) {
        (A::get_spec(value.0, id), B::get_spec(value.1, id), C::get_spec(value.2, id), D::get_spec(value.3, id), E::get_spec(value.4, id))
    }

    open spec fn value_after_get(value: (A::Value, B::Value, C::Value, D::Value, E::Value), id: Index) -> (A::Value, B::Value, C::Value, D::Value, E::Value) {
        (A::value_after_get(value.0, id), B::value_after_get(value.1, id), C::value_after_get(value.2, id), D::value_after_get(value.3, id), E::value_after_get(value.4, id))
    }

    fn open(self) -> (r: (BitSet, (A::Value, B::Value, C::Value, D::Value, E::Value))) {
        let (a0, a1, a2, a3, a4) = self;
        let (m0, v0) = a0.open();
        let (m1, v1) = a1.open();
        let (m2, v2) = a2.open();
        let (m3, v3) = a3.open();
        let (m4, v4) = a4.open();
        ((m0, m1, m2, m3, m4).and(), (v0, v1, v2, v3, v4))
    }

    fn get(value: &mut (A::Value, B::Value, C::Value, D::Value, E::Value), id: Index) -> (r: (A::Type, B::Type, C::Type, D::Type, E::Type)) {
        let r0 = A::get(&mut value.0, id);
        let r1 = B::get(&mut value.1, id);
        let r2 = C::get(&mut value.2, id);
        let r3 = D::get(&mut value.3, id);
        let r4 = E::get(&mut value.4, id);
        (r0, r1, r2, r3, r4)
    }
}

impl<A: MaskClone, B: MaskClone, C: MaskClone, D: MaskClone, E: MaskClone> MaskClone for (A, B, C, D, E) {
    open spec fn mask_clone_view(&self) -> Set<Index> {
        self.0.mask_clone_view().intersect(self.1.mask_clone_view()).intersect(self.2.mask_clone_view()).intersect(self.3.mask_clone_view()).intersect(self.4.mask_clone_view())
    }

    fn mask_clone(&self) -> (r: BitSet) {
        let m0 = self.0.mask_clone();
        let m1 = self.1.mask_clone();
        let m2 = self.2.mask_clone();
        let m3 = self.3.mask_clone();
        let m4 = self.4.mask_clone();
        (m0, m1, m2, m3, m4).and()
    }
}

impl<A: Join, B: Join, C: Join, D: Join, E: Join, F: Join> Join for (A, B, C, D, E, F) {
    type Type = (A::Type, B::Type, C::Type, D::Type, E::Type, F::Type);
    type Value = (A::Value, B::Value, C::Value, D::Value, E::Value, F::Value);

    open spec fn mask_view(&self) -> Set<Index> {
        self.0.mask_view().intersect(self.1.mask_view()).intersect(self.2.mask_view()).intersect(self.3.mask_view()).intersect(self.4.mask_view()).intersect(self.5.mask_view())
    }

    open spec fn value_view(&self) -> (A::Value, B::Value, C::Value, D::Value, E::Value, F::Value) {
        (self.0.value_view(), self.1.value_view(), self.2.value_view(), self.3.value_view(), self.4.value_view(), self.5.value_view())
    }

    open spec fn holds(value: (A::Value, B::Value, C::Value, D::Value, E::Value, F::Value), id: Index) -> bool {
        A::holds(value.0, id) && B::holds(value.1, id) && C::holds(value.2, id) && D::holds(value.3, id) && E::holds(value.4, id) && F::holds(value.5, id)
    }

    open spec fn get_spec(value: (A::Value, B::Value, C::Value, D::Value, E::Value, F::Value), id: Index) -> (A::Type, B::Type, C::Type, D::Type, E::Type, F::Type) {
        (A::get_spec(value.0, id), B::get_spec(value.1, id), C::get_spec(value.2, id), D::get_spec(value.3, id), E::get_spec(value.4, id), F::get_spec(value.5, id))
    }

    open spec fn value_after_get(value: (A::Value, B::Value, C::Value, D::Value, E::Value, F::Value), id: Index) -> (A::Value, B::Value, C::Value, D::Value, E::Value, F::Value) {
        (A::value_after_get(value.0, id), B::value_after_get(value.1, id), C::value_after_get(value.2, id), D::value_after_get(value.3, id), E::value_after_get(value.4, id), F::value_after_get(value.5, id))
    }

    fn open(self) -> (r: (BitSet, (A::Value, B::Value, C::Value, D::Value, E::Value, F::Value))) {
        let (a0, a1, a2, a3, a4, a5) = self;
        let (m0, v0) = a0.open();
        let (m1, v1) = a1.open();
        let (m2, v2) = a2.open();
        let (m3, v3) = a3.open();
        let (m4, v4) = a4.open();
        let (m5, v5) = a5.open();
        ((m0, m1, m2, m3, m4, m5).and(), (v0, v1, v2, v3, v4, v5))
    }

    fn get(value: &mut (A::Value, B::Value, C::Value, D::Value, E::Value, F::Value), id: Index) -> (r: (A::Type, B::Type, C::Type, D::Type, E::Type, F::Type)) {
        let r0 = A::get(&mut value.0, id);
        let r1 = B::get(&mut value.1, id);
        let r2 = C::get(&mut value.2, id);
        let r3 = D::get(&mut value.3, id);
        let r4 = E::get(&mut value.4, id);
        let r5 = F::get(&mut value.5, id);
        (r0, r1, r2, r3, r4, r5)
    }
}

impl<A: MaskClone, B: MaskClone, C: MaskClone, D: MaskClone, E: MaskClone, F: MaskClone> MaskClone for (A, B, C, D, E, F) {
    open spec fn mask_clone_view(&self) -> Set<Index> {
        self.0.mask_clone_view().intersect(self.1.mask_clone_view()).intersect(self.2.mask_clone_view()).intersect(self.3.mask_clone_view()).intersect(self.4.mask_clone_view()).intersect(self.5.mask_clone_view())
    }

    fn mask_clone(&self) -> (r: BitSet) {
        let m0 = self.0.mask_clone();
        let m1 = self.1.mask_clone();
        let m2 = self.2.mask_clone();
        let m3 = self.3.mask_clone();
        let m4 = self.4.mask_clone();
        let m5 = self.5.mask_clone();
        (m0, m1, m2, m3, m4, m5).and()
    }
}

impl<A: Join, B: Join, C: Join, D: Join, E: Join, F: Join, G: Join> Join for (A, B, C, D, E, F, G) {
    type Type = (A::Type, B::Type, C::Type, D::Type, E::Type, F::Type, G::Type);
    type Value = (A::Value, B::Value, C::Value, D::Value, E::Value, F::Value, G::Value);

    open spec fn mask_view(&self) -> Set<Index> {
        self.0.mask_view().intersect(self.1.mask_view()).intersect(self.2.mask_view()).intersect(self.3.mask_view()).intersect(self.4.mask_view()).intersect(self.5.mask_view()).intersect(self.6.mask_view())
    }

    open spec fn value_view(&self) -> (A::Value, B::Value, C::Value, D::Value, E::Value, F::Value, G::Value) {
        (self.0.value_view(), self.1.value_view(), self.2.value_view(), self.3.value_view(), self.4.value_view(), self.5.value_view(), self.6.value_view())
    }

    open spec fn holds(value: (A::Value, B::Value, C::Value, D::Value, E::Value, F::Value, G::Value), id: Index) -> bool {
        A::holds(value.0, id) && B::holds(value.1, id) && C::holds(value.2, id) && D::holds(value.3, id) && E::holds(value.4, id) && F::holds(value.5, id) && G::holds(value.6, id)
    }

    open spec fn get_spec(value: (A::Value, B::Value, C::Value, D::Value, E::Value, F::Value, G::Value), id: Index) -> (A::Type, B::Type, C::Type, D::Type, E::Type, F::Type, G::Type) {
        (A::get_spec(value.0, id), B::get_spec(value.1, id), C::get_spec(value.2, id), D::get_spec(value.3, id), E::get_spec(value.4, id), F::get_spec(value.5, id), G::get_spec(value.6, id))
    }

    open spec fn value_after_get(value: (A::Value, B::Value, C::Value, D::Value, E::Value, F::Value, G::Value), id: Index) -> (A::Value, B::Value, C::Value, D::Value, E::Value, F::Value, G::Value) {
        (A::value_after_get(value.0, id), B::value_after_get(value.1, id), C::value_after_get(value.2, id), D::value_after_get(value.3, id), E::value_after_get(value.4, id), F::value_after_get(value.5, id), G::value_after_get(value.6, id))
    }

    fn open(self) -> (r: (BitSet, (A::Value, B::Value, C::Value, D::Value, E::Value, F::Value, G::Value))) {
        let (a0, a1, a2, a3, a4, a5, a6) = self;
        let (m0, v0) = a0.open();
        let (m1, v1) = a1.open();
        let (m2, v2) = a2.open();
        let (m3, v3) = a3.open();
        let (m4, v4) = a4.open();
        let (m5, v5) = a5.open();
        let (m6, v6) = a6.open();
        ((m0, m1, m2, m3, m4, m5, m6).and(), (v0, v1, v2, v3, v4, v5, v6))
    }

    fn get(value: &mut (A::Value, B::Value, C::Value, D::Value, E::Value, F::Value, G::Value), id: Index) -> (r: (A::Type, B::Type, C::Type, D::Type, E::Type, F::Type, G::Type)) {
        let r0 = A::get(&mut value.0, id);
        let r1 = B::get(&mut value.1, id);
        let r2 = C::get(&mut value.2, id);
        let r3 = D::get(&mut value.3, id);
        let r4 = E::get(&mut value.4, id);
        let r5 = F::get(&mut value.5, id);
        let r6 = G::get(&mut value.6, id);
        (r0, r1, r2, r3, r4, r5, r6)
    }
}

impl<A: MaskClone, B: MaskClone, C: MaskClone, D: MaskClone, E: MaskClone, F: MaskClone, G: MaskClone> MaskClone for (A, B, C, D, E, F, G) {
    open spec fn mask_clone_view(&self) -> Set<Index> {
        self.0.mask_clone_view().intersect(self.1.mask_clone_view()).intersect(self.2.mask_clone_view()).intersect(self.3.mask_clone_view()).intersect(self.4.mask_clone_view()).intersect(self.5.mask_clone_view()).intersect(self.6.mask_clone_view())
    }

    fn mask_clone(&self) -> (r: BitSet) {
        let m0 = self.0.mask_clone();
        let m1 = self.1.mask_clone();
        let m2 = self.2.mask_clone();
        let m3 = self.3.mask_clone();
        let m4 = self.4.mask_clone();
        let m5 = self.5.mask_clone();
        let m6 = self.6.mask_clone();
        (m0, m1, m2, m3, m4, m5, m6).and()
    }
}

impl<A: Join, B: Join, C: Join, D: Join, E: Join, F: Join, G: Join, H: Join> Join for (A, B, C, D, E, F, G, H) {
    type Type = (A::Type, B::Type, C::Type, D::Type, E::Type, F::Type, G::Type, H::Type);
    type Value = (A::Value, B::Value, C::Value, D::Value, E::Value, F::Value, G::Value, H::Value);

    open spec fn mask_view(&self) -> Set<Index> {
        self.0.mask_view().intersect(self.1.mask_view()).intersect(self.2.mask_view()).intersect(self.3.mask_view()).intersect(self.4.mask_view()).intersect(self.5.mask_view()).intersect(self.6.mask_view()).intersect(self.7.mask_view())
    }

    open spec fn value_view(&self) -> (A::Value, B::Value, C::Value, D::Value, E::Value, F::Value, G::Value, H::Value) {
        (self.0.value_view(), self.1.value_view(), self.2.value_view(), self.3.value_view(), self.4.value_view(), self.5.value_view(), self.6.value_view(), self.7.value_view())
    }

    open spec fn holds(value: (A::Value, B::Value, C::Value, D::Value, E::Value, F::Value, G::Value, H::Value), id: Index) -> bool {
        A::holds(value.0, id) && B::holds(value.1, id) && C::holds(value.2, id) && D::holds(value.3, id) && E::holds(value.4, id) && F::holds(value.5, id) && G::holds(value.6, id) && H::holds(value.7, id)
    }

    open spec fn get_spec(value: (A::Value, B::Value, C::Value, D::Value, E::Value, F::Value, G::Value, H::Value), id: Index) -> (A::Type, B::Type, C::Type, D::Type, E::Type, F::Type, G::Type, H::Type) {
        (A::get_spec(value.0, id), B::get_spec(value.1, id), C::get_spec(value.2, id), D::get_spec(value.3, id), E::get_spec(value.4, id), F::get_spec(value.5, id), G::get_spec(value.6, id), H::get_spec(value.7, id))
    }

    open spec fn value_after_get(value: (A::Value, B::Value, C::Value, D::Value, E::Value, F::Value, G::Value, H::Value), id: Index) -> (A::Value, B::Value, C::Value, D::Value, E::Value, F::Value, G::Value, H::Value) {
        (A::value_after_get(value.0, id), B::value_after_get(value.1, id), C::value_after_get(value.2, id), D::value_after_get(value.3, id), E::value_after_get(value.4, id), F::value_after_get(value.5, id), G::value_after_get(value.6, id), H::value_after_get(value.7, id))
    }

    fn open(self) -> (r: (BitSet, (A::Value, B::Value, C::Value, D::Value, E::Value, F::Value, G::Value, H::Value))) {
        let (a0, a1, a2, a3, a4, a5, a6, a7) = self;
        let (m0, v0) = a0.open();
        let (m1, v1) = a1.open();
        let (m2, v2) = a2.open();
        let (m3, v3) = a3.open();
        let (m4, v4) = a4.open();
        let (m5, v5) = a5.open();
        let (m6, v6) = a6.open();
        let (m7, v7) = a7.open();
        ((m0, m1, m2, m3, m4, m5, m6, m7).and(), (v0, v1, v2, v3, v4, v5, v6, v7))
    }

    fn get(value: &mut (A::Value, B::Value, C::Value, D::Value, E::Value, F::Value, G::Value, H::Value), id: Index) -> (r: (A::Type, B::Type, C::Type, D::Type, E::Type, F::Type, G::Type, H::Type)) {
        let r0 = A::get(&mut value.0, id);
        let r1 = B::get(&mut value.1, id);
        let r2 = C::get(&mut value.2, id);
        let r3 = D::get(&mut value.3, id);
        let r4 = E::get(&mut value.4, id);
        let r5 = F::get(&mut value.5, id);
        let r6 = G::get(&mut value.6, id);
        let r7 = H::get(&mut value.7, id);
        (r0, r1, r2, r3, r4, r5, r6, r7)
    }
}

impl<A: MaskClone, B: MaskClone, C: MaskClone, D: MaskClone, E: MaskClone, F: MaskClone, G: MaskClone, H: MaskClone> MaskClone for (A, B, C, D, E, F, G, H) {
    open spec fn mask_clone_view(&self) -> Set<Index> {
        self.0.mask_clone_view().intersect(self.1.mask_clone_view()).intersect(self.2.mask_clone_view()).intersect(self.3.mask_clone_view()).intersect(self.4.mask_clone_view()).intersect(self.5.mask_clone_view()).intersect(self.6.mask_clone_view()).intersect(self.7.mask_clone_view())
    }

    fn mask_clone(&self) -> (r: BitSet) {
        let m0 = self.0.mask_clone();
        let m1 = self.1.mask_clone();
        let m2 = self.2.mask_clone();
        let m3 = self.3.mask_clone();
        let m4 = self.4.mask_clone();
        let m5 = self.5.mask_clone();
        let m6 = self.6.mask_clone();
        let m7 = self.7.mask_clone();
        (m0, m1, m2, m3, m4, m5, m6, m7).and()
    }
}

impl<A: Join, B: Join, C: Join, D: Join, E: Join, F: Join, G: Join, H: Join, I: Join> Join for (A, B, C, D, E, F, G, H, I) {
    type Type = (A::Type, B::Type, C::Type, D::Type, E::Type, F::Type, G::Type, H::Type, I::Type);
    type Value = (A::Value, B::Value, C::Value, D::Value, E::Value, F::Value, G::Value, H::Value, I::Value);

    open spec fn mask_view(&self) -> Set<Index> {
        self.0.mask_view().intersect(self.1.mask_view()).intersect(self.2.mask_view()).intersect(self.3.mask_view()).intersect(self.4.mask_view()).intersect(self.5.mask_view()).intersect(self.6.mask_view()).intersect(self.7.mask_view()).intersect(self.8.mask_view())
    }

    open spec fn value_view(&self) -> (A::Value, B::Value, C::Value, D::Value, E::Value, F::Value, G::Value, H::Value, I::Value) {
        (self.0.value_view(), self.1.value_view(), self.2.value_view(), self.3.value_view(), self.4.value_view(), self.5.value_view(), self.6.value_view(), self.7.value_view(), self.8.value_view())
    }

    open spec fn holds(value: (A::Value, B::Value, C::Value, D::Value, E::Value, F::Value, G::Value, H::Value, I::Value), id: Index) -> bool {
        A::holds(value.0, id) && B::holds(value.1, id) && C::holds(value.2, id) && D::holds(value.3, id) && E::holds(value.4, id) && F::holds(value.5, id) && G::holds(value.6, id) && H::holds(value.7, id) && I::holds(value.8, id)
    }

    open spec fn get_spec(value: (A::Value, B::Value, C::Value, D::Value, E::Value, F::Value, G::Value, H::Value, I::Value), id: Index) -> (A::Type, B::Type, C::Type, D::Type, E::Type, F::Type, G::Type, H::Type, I::Type) {
        (A::get_spec(value.0, id), B::get_spec(value.1, id), C::get_spec(value.2, id), D::get_spec(value.3, id), E::get_spec(value.4, id), F::get_spec(value.5, id), G::get_spec(value.6, id), H::get_spec(value.7, id), I::get_spec(value.8, id))
    }

    open spec fn value_after_get(value: (A::Value, B::Value, C::Value, D::Value, E::Value, F::Value, G::Value, H::Value, I::Value), id: Index) -> (A::Value, B::Value, C::Value, D::Value, E::Value, F::Value, G::Value, H::Value, I::Value) {
        (A::value_after_get(value.0, id), B::value_after_get(value.1, id), C::value_after_get(value.2, id), D::value_after_get(value.3, id), E::value_after_get(value.4, id), F::value_after_get(value.5, id), G::value_after_get(value.6, id), H::value_after_get(value.7, id), I::value_after_get(value.8, id))
    }

    fn open(self) -> (r: (BitSet, (A::Value, B::Value, C::Value, D::Value, E::Value, F::Value, G::Value, H::Value, I::Value))) {
        let (a0, a1, a2, a3, a4, a5, a6, a7, a8) = self;
        let (m0, v0) = a0.open();
        let (m1, v1) = a1.open();
        let (m2, v2) = a2.open();
        let (m3, v3) = a3.open();
        let (m4, v4) = a4.open();
        let (m5, v5) = a5.open();
        let (m6, v6) = a6.open();
        let (m7, v7) = a7.open();
        let (m8, v8) = a8.open();
        ((m0, m1, m2, m3, m4, m5, m6, m7, m8).and(), (v0, v1, v2, v3, v4, v5, v6, v7, v8))
    }

    fn get(value: &mut (A::Value, B::Value, C::Value, D::Value, E::Value, F::Value, G::Value, H::Value, I::Value), id: Index) -> (r: (A::Type, B::Type, C::Type, D::Type, E::Type, F::Type, G::Type, H::Type, I::Type)) {
        let r0 = A::get(&mut value.0, id);
        let r1 = B::get(&mut value.1, id);
        let r2 = C::get(&mut value.2, id);
        let r3 = D::get(&mut value.3, id);
        let r4 = E::get(&mut value.4, id);
        let r5 = F::get(&mut value.5, id);
        let r6 = G::get(&mut value.6, id);
        let r7 = H::get(&mut value.7, id);
        let r8 = I::get(&mut value.8, id);
        (r0, r1, r2, r3, r4, r5, r6, r7, r8)
    }
}

impl<A: MaskClone, B: MaskClone, C: MaskClone, D: MaskClone, E: MaskClone, F: MaskClone, G: MaskClone, H: MaskClone, I: MaskClone> MaskClone for (A, B, C, D, E, F, G, H, I) {
    open spec fn mask_clone_view(&self) -> Set<Index> {
        self.0.mask_clone_view().intersect(self.1.mask_clone_view()).intersect(self.2.mask_clone_view()).intersect(self.3.mask_clone_view()).intersect(self.4.mask_clone_view()).intersect(self.5.mask_clone_view()).intersect(self.6.mask_clone_view()).intersect(self.7.mask_clone_view()).intersect(self.8.mask_clone_view())
    }

    fn mask_clone(&self) -> (r: BitSet) {
        let m0 = self.0.mask_clone();
        let m1 = self.1.mask_clone();
        let m2 = self.2.mask_clone();
        let m3 = self.3.mask_clone();
        let m4 = self.4.mask_clone();
        let m5 = self.5.mask_clone();
        let m6 = self.6.mask_clone();
        let m7 = self.7.mask_clone();
        let m8 = self.8.mask_clone();
        (m0, m1, m2, m3, m4, m5, m6, m7, m8).and()
    }
}

impl<A: Join, B: Join, C: Join, D: Join, E: Join, F: Join, G: Join, H: Join, I: Join, J: Join> Join for (A, B, C, D, E, F, G, H, I, J) {
    type Type = (A::Type, B::Type, C::Type, D::Type, E::Type, F::Type, G::Type, H::Type, I::Type, J::Type);
    type Value = (A::Value, B::Value, C::Value, D::Value, E::Value, F::Value, G::Value, H::Value, I::Value, J::Value);

    open spec fn mask_view(&self) -> Set<Index> {
        self.0.mask_view().intersect(self.1.mask_view()).intersect(self.2.mask_view()).intersect(self.3.mask_view()).intersect(self.4.mask_view()).intersect(self.5.mask_view()).intersect(self.6.mask_view()).intersect(self.7.mask_view()).intersect(self.8.mask_view()).intersect(self.9.mask_view())
    }

    open spec fn value_view(&self) -> (A::Value, B::Value, C::Value, D::Value, E::Value, F::Value, G::Value, H::Value, I::Value, J::Value) {
        (self.0.value_view(), self.1.value_view(), self.2.value_view(), self.3.value_view(), self.4.value_view(), self.5.value_view(), self.6.value_view(), self.7.value_view(), self.8.value_view(), self.9.value_view())
    }

    open spec fn holds(value: (A::Value, B::Value, C::Value, D::Value, E::Value, F::Value, G::Value, H::Value, I::Value, J::Value), id: Index) -> bool {
        A::holds(value.0, id) && B::holds(value.1, id) && C::holds(value.2, id) && D::holds(value.3, id) && E::holds(value.4, id) && F::holds(value.5, id) && G::holds(value.6, id) && H::holds(value.7, id) && I::holds(value.8, id) && J::holds(value.9, id)
    }

    open spec fn get_spec(value: (A::Value, B::Value, C::Value, D::Value, E::Value, F::Value, G::Value, H::Value, I::Value, J::Value), id: Index) -> (A::Type, B::Type, C::Type, D::Type, E::Type, F::Type, G::Type, H::Type, I::Type, J::Type) {
        (A::get_spec(value.0, id), B::get_spec(value.1, id), C::get_spec(value.2, id), D::get_spec(value.3, id), E::get_spec(value.4, id), F::get_spec(value.5, id), G::get_spec(value.6, id), H::get_spec(value.7, id), I::get_spec(value.8, id), J::get_spec(value.9, id))
    }

    open spec fn value_after_get(value: (A::Value, B::Value, C::Value, D::Value, E::Value, F::Value, G::Value, H::Value, I::Value, J::Value), id: Index) -> (A::Value, B::Value, C::Value, D::Value, E::Value, F::Value, G::Value, H::Value, I::Value, J::Value) {
        (A::value_after_get(value.0, id), B::value_after_get(value.1, id), C::value_after_get(value.2, id), D::value_after_get(value.3, id), E::value_after_get(value.4, id), F::value_after_get(value.5, id), G::value_after_get(value.6, id), H::value_after_get(value.7, id), I::value_after_get(value.8, id), J::value_after_get(value.9, id))
    }

    fn open(self) -> (r: (BitSet, (A::Value, B::Value, C::Value, D::Value, E::Value, F::Value, G::Value, H::Value, I::Value, J::Value))) {
        let (a0, a1, a2, a3, a4, a5, a6, a7, a8, a9) = self;
        let (m0, v0) = a0.open();
        let (m1, v1) = a1.open();
        let (m2, v2) = a2.open();
        let (m3, v3) = a3.open();
        let (m4, v4) = a4.open();
        let (m5, v5) = a5.open();
        let (m6, v6) = a6.open();
        let (m7, v7) = a7.open();
        let (m8, v8) = a8.open();
        let (m9, v9) = a9.open();
        ((m0, m1, m2, m3, m4, m5, m6, m7, m8, m9).and(), (v0, v1, v2, v3, v4, v5, v6, v7, v8, v9))
    }

    fn get(value: &mut (A::Value, B::Value, C::Value, D::Value, E::Value, F::Value, G::Value, H::Value, I::Value, J::Value), id: Index) -> (r: (A::Type, B::Type, C::Type, D::Type, E::Type, F::Type, G::Type, H::Type, I::Type, J::Type)) {
        let r0 = A::get(&mut value.0, id);
        let r1 = B::get(&mut value.1, id);
        let r2 = C::get(&mut value.2, id);
        let r3 = D::get(&mut value.3, id);
        let r4 = E::get(&mut value.4, id);
        let r5 = F::get(&mut value.5, id);
        let r6 = G::get(&mut value.6, id);
        let r7 = H::get(&mut value.7, id);
        let r8 = I::get(&mut value.8, id);
        let r9 = J::get(&mut value.9, id);
        (r0, r1, r2, r3, r4, r5, r6, r7, r8, r9)
    }
}

impl<A: MaskClone, B: MaskClone, C: MaskClone, D: MaskClone, E: MaskClone, F: MaskClone, G: MaskClone, H: MaskClone, I: MaskClone, J: MaskClone> MaskClone for (A, B, C, D, E, F, G, H, I, J) {
    open spec fn mask_clone_view(&self) -> Set<Index> {
        self.0.mask_clone_view().intersect(self.1.mask_clone_view()).intersect(self.2.mask_clone_view()).intersect(self.3.mask_clone_view()).intersect(self.4.mask_clone_view()).intersect(self.5.mask_clone_view()).intersect(self.6.mask_clone_view()).intersect(self.7.mask_clone_view()).intersect(self.8.mask_clone_view()).intersect(self.9.mask_clone_view())
    }

    fn mask_clone(&self) -> (r: BitSet) {
        let m0 = self.0.mask_clone();
        let m1 = self.1.mask_clone();
        let m2 = self.2.mask_clone();
        let m3 = self.3.mask_clone();
        let m4 = self.4.mask_clone();
        let m5 = self.5.mask_clone();
        let m6 = self.6.mask_clone();
        let m7 = self.7.mask_clone();
        let m8 = self.8.mask_clone();
        let m9 = self.9.mask_clone();
        (m0, m1, m2, m3, m4, m5, m6, m7, m8, m9).and()
    }
}

impl<A: Join, B: Join, C: Join, D: Join, E: Join, F: Join, G: Join, H: Join, I: Join, J: Join, K: Join> Join for (A, B, C, D, E, F, G, H, I, J, K) {
    type Type = (A::Type, B::Type, C::Type, D::Type, E::Type, F::Type, G::Type, H::Type, I::Type, J::Type, K::Type);
    type Value = (A::Value, B::Value, C::Value, D::Value, E::Value, F::Value, G::Value, H::Value, I::Value, J::Value, K::Value);

    open spec fn mask_view(&self) -> Set<Index> {
        self.0.mask_view().intersect(self.1.mask_view()).intersect(self.2.mask_view()).intersect(self.3.mask_view()).intersect(self.4.mask_view()).intersect(self.5.mask_view()).intersect(self.6.mask_view()).intersect(self.7.mask_view()).intersect(self.8.mask_view()).intersect(self.9.mask_view()).intersect(self.10.mask_view())
    }

    open spec fn value_view(&self) -> (A::Value, B::Value, C::Value, D::Value, E::Value, F::Value, G::Value, H::Value, I::Value, J::Value, K::Value) {
        (self.0.value_view(), self.1.value_view(), self.2.value_view(), self.3.value_view(), self.4.value_view(), self.5.value_view(), self.6.value_view(), self.7.value_view(), self.8.value_view(), self.9.value_view(), self.10.value_view())
    }

    open spec fn holds(value: (A::Value, B::Value, C::Value, D::Value, E::Value, F::Value, G::Value, H::Value, I::Value, J::Value, K::Value), id: Index) -> bool {
        A::holds(value.0, id) && B::holds(value.1, id) && C::holds(value.2, id) && D::holds(value.3, id) && E::holds(value.4, id) && F::holds(value.5, id) && G::holds(value.6, id) && H::holds(value.7, id) && I::holds(value.8, id) && J::holds(value.9, id) && K::holds(value.10, id)
    }

    open spec fn get_spec(value: (A::Value, B::Value, C::Value, D::Value, E::Value, F::Value, G::Value, H::Value, I::Value, J::Value, K::Value), id: Index) -> (A::Type, B::Type, C::Type, D::Type, E::Type, F::Type, G::Type, H::Type, I::Type, J::Type, K::Type) {
        (A::get_spec(value.0, id), B::get_spec(value.1, id), C::get_spec(value.2, id), D::get_spec(value.3, id), E::get_spec(value.4, id), F::get_spec(value.5, id), G::get_spec(value.6, id), H::get_spec(value.7, id), I::get_spec(value.8, id), J::get_spec(value.9, id), K::get_spec(value.10, id))
    }

    open spec fn value_after_get(value: (A::Value, B::Value, C::Value, D::Value, E::Value, F::Value, G::Value, H::Value, I::Value, J::Value, K::Value), id: Index) -> (A::Value, B::Value, C::Value, D::Value, E::Value, F::Value, G::Value, H::Value, I::Value, J::Value, K::Value) {
        (A::value_after_get(value.0, id), B::value_after_get(value.1, id), C::value_after_get(value.2, id), D::value_after_get(value.3, id), E::value_after_get(value.4, id), F::value_after_get(value.5, id), G::value_after_get(value.6, id), H::value_after_get(value.7, id), I::value_after_get(value.8, id), J::value_after_get(value.9, id), K::value_after_get(value.10, id))
    }

    fn open(self) -> (r: (BitSet, (A::Value, B::Value, C::Value, D::Value, E::Value, F::Value, G::Value, H::Value, I::Value, J::Value, K::Value))) {
        let (a0, a1, a2, a3, a4, a5, a6, a7, a8, a9, a10) = self;
        let (m0, v0) = a0.open();
        let (m1, v1) = a1.open();
        let (m2, v2) = a2.open();
        let (m3, v3) = a3.open();
        let (m4, v4) = a4.open();
        let (m5, v5) = a5.open();
        let (m6, v6) = a6.open();
        let (m7, v7) = a7.open();
        let (m8, v8) = a8.open();
        let (m9, v9) = a9.open();
        let (m10, v10) = a10.open();
        ((m0, m1, m2, m3, m4, m5, m6, m7, m8, m9, m10).and(), (v0, v1, v2, v3, v4, v5, v6, v7, v8, v9, v10))
    }

    fn get(value: &mut (A::Value, B::Value, C::Value, D::Value, E::Value, F::Value, G::Value, H::Value, I::Value, J::Value, K::Value), id: Index) -> (r: (A::Type, B::Type, C::Type, D::Type, E::Type, F::Type, G::Type, H::Type, I::Type, J::Type, K::Type)) {
        let r0 = A::get(&mut value.0, id);
        let r1 = B::get(&mut value.1, id);
        let r2 = C::get(&mut value.2, id);
        let r3 = D::get(&mut value.3, id);
        let r4 = E::get(&mut value.4, id);
        let r5 = F::get(&mut value.5, id);
        let r6 = G::get(&mut value.6, id);
        let r7 = H::get(&mut value.7, id);
        let r8 = I::get(&mut value.8, id);
        let r9 = J::get(&mut value.9, id);
        let r10 = K::get(&mut value.10, id);
        (r0, r1, r2, r3, r4, r5, r6, r7, r8, r9, r10)
    }
}

impl<A: MaskClone, B: MaskClone, C: MaskClone, D: MaskClone, E: MaskClone, F: MaskClone, G: MaskClone, H: MaskClone, I: MaskClone, J: MaskClone, K: MaskClone> MaskClone for (A, B, C, D, E, F, G, H, I, J, K) {
    open spec fn mask_clone_view(&self) -> Set<Index> {
        self.0.mask_clone_view().intersect(self.1.mask_clone_view()).intersect(self.2.mask_clone_view()).intersect(self.3.mask_clone_view()).intersect(self.4.mask_clone_view()).intersect(self.5.mask_clone_view()).intersect(self.6.mask_clone_view()).intersect(self.7.mask_clone_view()).intersect(self.8.mask_clone_view()).intersect(self.9.mask_clone_view()).intersect(self.10.mask_clone_view())
    }

    fn mask_clone(&self) -> (r: BitSet) {
        let m0 = self.0.mask_clone();
        let m1 = self.1.mask_clone();
        let m2 = self.2.mask_clone();
        let m3 = self.3.mask_clone();
        let m4 = self.4.mask_clone();
        let m5 = self.5.mask_clone();
        let m6 = self.6.mask_clone();
        let m7 = self.7.mask_clone();
        let m8 = self.8.mask_clone();
        let m9 = self.9.mask_clone();
        let m10 = self.10.mask_clone();
        (m0, m1, m2, m3, m4, m5, m6, m7, m8, m9, m10).and()
    }
}

impl<A: Join, B: Join, C: Join, D: Join, E: Join, F: Join, G: Join, H: Join, I: Join, J: Join, K: Join, L: Join> Join for (A, B, C, D, E, F, G, H, I, J, K, L) {
    type Type = (A::Type, B::Type, C::Type, D::Type, E::Type, F::Type, G::Type, H::Type, I::Type, J::Type, K::Type, L::Type);
    type Value = (A::Value, B::Value, C::Value, D::Value, E::Value, F::Value, G::Value, H::Value, I::Value, J::Value, K::Value, L::Value);

    open spec fn mask_view(&self) -> Set<Index> {
        self.0.mask_view().intersect(self.1.mask_view()).intersect(self.2.mask_view()).intersect(self.3.mask_view()).intersect(self.4.mask_view()).intersect(self.5.mask_view()).intersect(self.6.mask_view()).intersect(self.7.mask_view()).intersect(self.8.mask_view()).intersect(self.9.mask_view()).intersect(self.10.mask_view()).intersect(self.11.mask_view())
    }

    open spec fn value_view(&self) -> (A::Value, B::Value, C::Value, D::Value, E::Value, F::Value, G::Value, H::Value, I::Value, J::Value, K::Value, L::Value) {
        (self.0.value_view(), self.1.value_view(), self.2.value_view(), self.3.value_view(), self.4.value_view(), self.5.value_view(), self.6.value_view(), self.7.value_view(), self.8.value_view(), self.9.value_view(), self.10.value_view(), self.11.value_view())
    }

    open spec fn holds(value: (A::Value, B::Value, C::Value, D::Value, E::Value, F::Value, G::Value, H::Value, I::Value, J::Value, K::Value, L::Value), id: Index) -> bool {
        A::holds(value.0, id) && B::holds(value.1, id) && C::holds(value.2, id) && D::holds(value.3, id) && E::holds(value.4, id) && F::holds(value.5, id) && G::holds(value.6, id) && H::holds(value.7, id) && I::holds(value.8, id) && J::holds(value.9, id) && K::holds(value.10, id) && L::holds(value.11, id)
    }

    open spec fn get_spec(value: (A::Value, B::Value, C::Value, D::Value, E::Value, F::Value, G::Value, H::Value, I::Value, J::Value, K::Value, L::Value), id: Index) -> (A::Type, B::Type, C::Type, D::Type, E::Type, F::Type, G::Type, H::Type, I::Type, J::Type, K::Type, L::Type) {
        (A::get_spec(value.0, id), B::get_spec(value.1, id), C::get_spec(value.2, id), D::get_spec(value.3, id), E::get_spec(value.4, id), F::get_spec(value.5, id), G::get_spec(value.6, id), H::get_spec(value.7, id), I::get_spec(value.8, id), J::get_spec(value.9, id), K::get_spec(value.10, id), L::get_spec(value.11, id))
    }

    open spec fn value_after_get(value: (A::Value, B::Value, C::Value, D::Value, E::Value, F::Value, G::Value, H::Value, I::Value, J::Value, K::Value, L::Value), id: Index) -> (A::Value, B::Value, C::Value, D::Value, E::Value, F::Value, G::Value, H::Value, I::Value, J::Value, K::Value, L::Value) {
        (A::value_after_get(value.0, id), B::value_after_get(value.1, id), C::value_after_get(value.2, id), D::value_after_get(value.3, id), E::value_after_get(value.4, id), F::value_after_get(value.5, id), G::value_after_get(value.6, id), H::value_after_get(value.7, id), I::value_after_get(value.8, id), J::value_after_get(value.9, id), K::value_after_get(value.10, id), L::value_after_get(value.11, id))
    }

    fn open(self) -> (r: (BitSet, (A::Value, B::Value, C::Value, D::Value, E::Value, F::Value, G::Value, H::Value, I::Value, J::Value, K::Value, L::Value))) {
        let (a0, a1, a2, a3, a4, a5, a6, a7, a8, a9, a10, a11) = self;
        let (m0, v0) = a0.open();
        let (m1, v1) = a1.open();
        let (m2, v2) = a2.open();
        let (m3, v3) = a3.open();
        let (m4, v4) = a4.open();
        let (m5, v5) = a5.open();
        let (m6, v6) = a6.open();
        let (m7, v7) = a7.open();
        let (m8, v8) = a8.open();
        let (m9, v9) = a9.open();
        let (m10, v10) = a10.open();
        let (m11, v11) = a11.open();
        ((m0, m1, m2, m3, m4, m5, m6, m7, m8, m9, m10, m11).and(), (v0, v1, v2, v3, v4, v5, v6, v7, v8, v9, v10, v11))
    }

    fn get(value: &mut (A::Value, B::Value, C::Value, D::Value, E::Value, F::Value, G::Value, H::Value, I::Value, J::Value, K::Value, L::Value), id: Index) -> (r: (A::Type, B::Type, C::Type, D::Type, E::Type, F::Type, G::Type, H::Type, I::Type, J::Type, K::Type, L::Type)) {
        let r0 = A::get(&mut value.0, id);
        let r1 = B::get(&mut value.1, id);
        let r2 = C::get(&mut value.2, id);
        let r3 = D::get(&mut value.3, id);
        let r4 = E::get(&mut value.4, id);
        let r5 = F::get(&mut value.5, id);
        let r6 = G::get(&mut value.6, id);
        let r7 = H::get(&mut value.7, id);
        let r8 = I::get(&mut value.8, id);
        let r9 = J::get(&mut value.9, id);
        let r10 = K::get(&mut value.10, id);
        let r11 = L::get(&mut value.11, id);
        (r0, r1, r2, r3, r4, r5, r6, r7, r8, r9, r10, r11)
    }
}

impl<A: MaskClone, B: MaskClone, C: MaskClone, D: MaskClone, E: MaskClone, F: MaskClone, G: MaskClone, H: MaskClone, I: MaskClone, J: MaskClone, K: MaskClone, L: MaskClone> MaskClone for (A, B, C, D, E, F, G, H, I, J, K, L) {
    open spec fn mask_clone_view(&self) -> Set<Index> {
        self.0.mask_clone_view().intersect(self.1.mask_clone_view()).intersect(self.2.mask_clone_view()).intersect(self.3.mask_clone_view()).intersect(self.4.mask_clone_view()).intersect(self.5.mask_clone_view()).intersect(self.6.mask_clone_view()).intersect(self.7.mask_clone_view()).intersect(self.8.mask_clone_view()).intersect(self.9.mask_clone_view()).intersect(self.10.mask_clone_view()).intersect(self.11.mask_clone_view())
    }

    fn mask_clone(&self) -> (r: BitSet) {
        let m0 = self.0.mask_clone();
        let m1 = self.1.mask_clone();
        let m2 = self.2.mask_clone();
        let m3 = self.3.mask_clone();
        let m4 = self.4.mask_clone();
        let m5 = self.5.mask_clone();
        let m6 = self.6.mask_clone();
        let m7 = self.7.mask_clone();
        let m8 = self.8.mask_clone();
        let m9 = self.9.mask_clone();
        let m10 = self.10.mask_clone();
        let m11 = self.11.mask_clone();
        (m0, m1, m2, m3, m4, m5, m6, m7, m8, m9, m10, m11).and()
    }
}

impl<A: Join, B: Join, C: Join, D: Join, E: Join, F: Join, G: Join, H: Join, I: Join, J: Join, K: Join, L: Join, M: Join> Join for (A, B, C, D, E, F, G, H, I, J, K, L, M) {
    type Type = (A::Type, B::Type, C::Type, D::Type, E::Type, F::Type, G::Type, H::Type, I::Type, J::Type, K::Type, L::Type, M::Type);
    type Value = (A::Value, B::Value, C::Value, D::Value, E::Value, F::Value, G::Value, H::Value, I::Value, J::Value, K::Value, L::Value, M::Value);

    open spec fn mask_view(&self) -> Set<Index> {
        self.0.mask_view().intersect(self.1.mask_view()).intersect(self.2.mask_view()).intersect(self.3.mask_view()).intersect(self.4.mask_view()).intersect(self.5.mask_view()).intersect(self.6.mask_view()).intersect(self.7.mask_view()).intersect(self.8.mask_view()).intersect(self.9.mask_view()).intersect(self.10.mask_view()).intersect(self.11.mask_view()).intersect(self.12.mask_view())
    }

    open spec fn value_view(&self) -> (A::Value, B::Value, C::Value, D::Value, E::Value, F::Value, G::Value, H::Value, I::Value, J::Value, K::Value, L::Value, M::Value) {
        (self.0.value_view(), self.1.value_view(), self.2.value_view(), self.3.value_view(), self.4.value_view(), self.5.value_view(), self.6.value_view(), self.7.value_view(), self.8.value_view(), self.9.value_view(), self.10.value_view(), self.11.value_view(), self.12.value_view())
    }

    open spec fn holds(value: (A::Value, B::Value, C::Value, D::Value, E::Value, F::Value, G::Value, H::Value, I::Value, J::Value, K::Value, L::Value, M::Value), id: Index) -> bool {
        A::holds(value.0, id) && B::holds(value.1, id) && C::holds(value.2, id) && D::holds(value.3, id) && E::holds(value.4, id) && F::holds(value.5, id) && G::holds(value.6, id) && H::holds(value.7, id) && I::holds(value.8, id) && J::holds(value.9, id) && K::holds(value.10, id) && L::holds(value.11, id) && M::holds(value.12, id)
    }

    open spec fn get_spec(value: (A::Value, B::Value, C::Value, D::Value, E::Value, F::Value, G::Value, H::Value, I::Value, J::Value, K::Value, L::Value, M::Value), id: Index) -> (A::Type, B::Type, C::Type, D::Type, E::Type, F::Type, G::Type, H::Type, I::Type, J::Type, K::Type, L::Type, M::Type) {
        (A::get_spec(value.0, id), B::get_spec(value.1, id), C::get_spec(value.2, id), D::get_spec(value.3, id), E::get_spec(value.4, id), F::get_spec(value.5, id), G::get_spec(value.6, id), H::get_spec(value.7, id), I::get_spec(value.8, id), J::get_spec(value.9, id), K::get_spec(value.10, id), L::get_spec(value.11, id), M::get_spec(value.12, id))
    }

    open spec fn value_after_get(value: (A::Value, B::Value, C::Value, D::Value, E::Value, F::Value, G::Value, H::Value, I::Value, J::Value, K::Value, L::Value, M::Value), id: Index) -> (A::Value, B::Value, C::Value, D::Value, E::Value, F::Value, G::Value, H::Value, I::Value, J::Value, K::Value, L::Value, M::Value) {
        (A::value_after_get(value.0, id), B::value_after_get(value.1, id), C::value_after_get(value.2, id), D::value_after_get(value.3, id), E::value_after_get(value.4, id), F::value_after_get(value.5, id), G::value_after_get(value.6, id), H::value_after_get(value.7, id), I::value_after_get(value.8, id), J::value_after_get(value.9, id), K::value_after_get(value.10, id), L::value_after_get(value.11, id), M::value_after_get(value.12, id))
    }

    fn open(self) -> (r: (BitSet, (A::Value, B::Value, C::Value, D::Value, E::Value, F::Value, G::Value, H::Value, I::Value, J::Value, K::Value, L::Value, M::Value))) {
        let (a0, a1, a2, a3, a4, a5, a6, a7, a8, a9, a10, a11, a12) = self;
        let (m0, v0) = a0.open();
        let (m1, v1) = a1.open();
        let (m2, v2) = a2.open();
        let (m3, v3) = a3.open();
        let (m4, v4) = a4.open();
        let (m5, v5) = a5.open();
        let (m6, v6) = a6.open();
        let (m7, v7) = a7.open();
        let (m8, v8) = a8.open();
        let (m9, v9) = a9.open();
        let (m10, v10) = a10.open();
        let (m11, v11) = a11.open();
        let (m12, v12) = a12.open();
        ((m0, m1, m2, m3, m4, m5, m6, m7, m8, m9, m10, m11, m12).and(), (v0, v1, v2, v3, v4, v5, v6, v7, v8, v9, v10, v11, v12))
    }

    fn get(value: &mut (A::Value, B::Value, C::Value, D::Value, E::Value, F::Value, G::Value, H::Value, I::Value, J::Value, K::Value, L::Value, M::Value), id: Index) -> (r: (A::Type, B::Type, C::Type, D::Type, E::Type, F::Type, G::Type, H::Type, I::Type, J::Type, K::Type, L::Type, M::Type)) {
        let r0 = A::get(&mut value.0, id);
        let r1 = B::get(&mut value.1, id);
        let r2 = C::get(&mut value.2, id);
        let r3 = D::get(&mut value.3, id);
        let r4 = E::get(&mut value.4, id);
        let r5 = F::get(&mut value.5, id);
        let r6 = G::get(&mut value.6, id);
        let r7 = H::get(&mut value.7, id);
        let r8 = I::get(&mut value.8, id);
        let r9 = J::get(&mut value.9, id);
        let r10 = K::get(&mut value.10, id);
        let r11 = L::get(&mut value.11, id);
        let r12 = M::get(&mut value.12, id);
        (r0, r1, r2, r3, r4, r5, r6, r7, r8, r9, r10, r11, r12)
    }
}

impl<A: MaskClone, B: MaskClone, C: MaskClone, D: MaskClone, E: MaskClone, F: MaskClone, G: MaskClone, H: MaskClone, I: MaskClone, J: MaskClone, K: MaskClone, L: MaskClone, M: MaskClone> MaskClone for (A, B, C, D, E, F, G, H, I, J, K, L, M) {
    open spec fn mask_clone_view(&self) -> Set<Index> {
        self.0.mask_clone_view().intersect(self.1.mask_clone_view()).intersect(self.2.mask_clone_view()).intersect(self.3.mask_clone_view()).intersect(self.4.mask_clone_view()).intersect(self.5.mask_clone_view()).intersect(self.6.mask_clone_view()).intersect(self.7.mask_clone_view()).intersect(self.8.mask_clone_view()).intersect(self.9.mask_clone_view()).intersect(self.10.mask_clone_view()).intersect(self.11.mask_clone_view()).intersect(self.12.mask_clone_view())
    }

    fn mask_clone(&self) -> (r: BitSet) {
        let m0 = self.0.mask_clone();
        let m1 = self.1.mask_clone();
        let m2 = self.2.mask_clone();
        let m3 = self.3.mask_clone();
        let m4 = self.4.mask_clone();
        let m5 = self.5.mask_clone();
        let m6 = self.6.mask_clone();
        let m7 = self.7.mask_clone();
        let m8 = self.8.mask_clone();
        let m9 = self.9.mask_clone();
        let m10 = self.10.mask_clone();
        let m11 = self.11.mask_clone();
        let m12 = self.12.mask_clone();
        (m0, m1, m2, m3, m4, m5, m6, m7, m8, m9, m10, m11, m12).and()
    }
}

impl<A: Join, B: Join, C: Join, D: Join, E: Join, F: Join, G: Join, H: Join, I: Join, J: Join, K: Join, L: Join, M: Join, N: Join> Join for (A, B, C, D, E, F, G, H, I, J, K, L, M, N) {
    type Type = (A::Type, B::Type, C::Type, D::Type, E::Type, F::Type, G::Type, H::Type, I::Type, J::Type, K::Type, L::Type, M::Type, N::Type);
    type Value = (A::Value, B::Value, C::Value, D::Value, E::Value, F::Value, G::Value, H::Value, I::Value, J::Value, K::Value, L::Value, M::Value, N::Value);

    open spec fn mask_view(&self) -> Set<Index> {
        self.0.mask_view().intersect(self.1.mask_view()).intersect(self.2.mask_view()).intersect(self.3.mask_view()).intersect(self.4.mask_view()).intersect(self.5.mask_view()).intersect(self.6.mask_view()).intersect(self.7.mask_view()).intersect(self.8.mask_view()).intersect(self.9.mask_view()).intersect(self.10.mask_view()).intersect(self.11.mask_view()).intersect(self.12.mask_view()).intersect(self.13.mask_view())
    }

    open spec fn value_view(&self) -> (A::Value, B::Value, C::Value, D::Value, E::Value, F::Value, G::Value, H::Value, I::Value, J::Value, K::Value, L::Value, M::Value, N::Value) {
        (self.0.value_view(), self.1.value_view(), self.2.value_view(), self.3.value_view(), self.4.value_view(), self.5.value_view(), self.6.value_view(), self.7.value_view(), self.8.value_view(), self.9.value_view(), self.10.value_view(), self.11.value_view(), self.12.value_view(), self.13.value_view())
    }

    open spec fn holds(value: (A::Value, B::Value, C::Value, D::Value, E::Value, F::Value, G::Value, H::Value, I::Value, J::Value, K::Value, L::Value, M::Value, N::Value), id: Index) -> bool {
        A::holds(value.0, id) && B::holds(value.1, id) && C::holds(value.2, id) && D::holds(value.3, id) && E::holds(value.4, id) && F::holds(value.5, id) && G::holds(value.6, id) && H::holds(value.7, id) && I::holds(value.8, id) && J::holds(value.9, id) && K::holds(value.10, id) && L::holds(value.11, id) && M::holds(value.12, id) && N::holds(value.13, id)
    }

    open spec fn get_spec(value: (A::Value, B::Value, C::Value, D::Value, E::Value, F::Value, G::Value, H::Value, I::Value, J::Value, K::Value, L::Value, M::Value, N::Value), id: Index) -> (A::Type, B::Type, C::Type, D::Type, E::Type, F::Type, G::Type, H::Type, I::Type, J::Type, K::Type, L::Type, M::Type, N::Type) {
        (A::get_spec(value.0, id), B::get_spec(value.1, id), C::get_spec(value.2, id), D::get_spec(value.3, id), E::get_spec(value.4, id), F::get_spec(value.5, id), G::get_spec(value.6, id), H::get_spec(value.7, id), I::get_spec(value.8, id), J::get_spec(value.9, id), K::get_spec(value.10, id), L::get_spec(value.11, id), M::get_spec(value.12, id), N::get_spec(value.13, id))
    }

    open spec fn value_after_get(value: (A::Value, B::Value, C::Value, D::Value, E::Value, F::Value, G::Value, H::Value, I::Value, J::Value, K::Value, L::Value, M::Value, N::Value), id: Index) -> (A::Value, B::Value, C::Value, D::Value, E::Value, F::Value, G::Value, H::Value, I::Value, J::Value, K::Value, L::Value, M::Value, N::Value) {
        (A::value_after_get(value.0, id), B::value_after_get(value.1, id), C::value_after_get(value.2, id), D::value_after_get(value.3, id), E::value_after_get(value.4, id), F::value_after_get(value.5, id), G::value_after_get(value.6, id), H::value_after_get(value.7, id), I::value_after_get(value.8, id), J::value_after_get(value.9, id), K::value_after_get(value.10, id), L::value_after_get(value.11, id), M::value_after_get(value.12, id), N::value_after_get(value.13, id))
    }

    fn open(self) -> (r: (BitSet, (A::Value, B::Value, C::Value, D::Value, E::Value, F::Value, G::Value, H::Value, I::Value, J::Value, K::Value, L::Value, M::Value, N::Value))) {
        let (a0, a1, a2, a3, a4, a5, a6, a7, a8, a9, a10, a11, a12, a13) = self;
        let (m0, v0) = a0.open();
        let (m1, v1) = a1.open();
        let (m2, v2) = a2.open();
        let (m3, v3) = a3.open();
        let (m4, v4) = a4.open();
        let (m5, v5) = a5.open();
        let (m6, v6) = a6.open();
        let (m7, v7) = a7.open();
        let (m8, v8) = a8.open();
        let (m9, v9) = a9.open();
        let (m10, v10) = a10.open();
        let (m11, v11) = a11.open();
        let (m12, v12) = a12.open();
        let (m13, v13) = a13.open();
        ((m0, m1, m2, m3, m4, m5, m6, m7, m8, m9, m10, m11, m12, m13).and(), (v0, v1, v2, v3, v4, v5, v6, v7, v8, v9, v10, v11, v12, v13))
    }

    fn get(value: &mut (A::Value, B::Value, C::Value, D::Value, E::Value, F::Value, G::Value, H::Value, I::Value, J::Value, K::Value, L::Value, M::Value, N::Value), id: Index) -> (r: (A::Type, B::Type, C::Type, D::Type, E::Type, F::Type, G::Type, H::Type, I::Type, J::Type, K::Type, L::Type, M::Type, N::Type)) {
        let r0 = A::get(&mut value.0, id);
        let r1 = B::get(&mut value.1, id);
        let r2 = C::get(&mut value.2, id);
        let r3 = D::get(&mut value.3, id);
        let r4 = E::get(&mut value.4, id);
        let r5 = F::get(&mut value.5, id);
        let r6 = G::get(&mut value.6, id);
        let r7 = H::get(&mut value.7, id);
        let r8 = I::get(&mut value.8, id);
        let r9 = J::get(&mut value.9, id);
        let r10 = K::get(&mut value.10, id);
        let r11 = L::get(&mut value.11, id);
        let r12 = M::get(&mut value.12, id);
        let r13 = N::get(&mut value.13, id);
        (r0, r1, r2, r3, r4, r5, r6, r7, r8, r9, r10, r11, r12, r13)
    }
}

impl<A: MaskClone, B: MaskClone, C: MaskClone, D: MaskClone, E: MaskClone, F: MaskClone, G: MaskClone, H: MaskClone, I: MaskClone, J: MaskClone, K: MaskClone, L: MaskClone, M: MaskClone, N: MaskClone> MaskClone for (A, B, C, D, E, F, G, H, I, J, K, L, M, N) {
    open spec fn mask_clone_view(&self) -> Set<Index> {
        self.0.mask_clone_view().intersect(self.1.mask_clone_view()).intersect(self.2.mask_clone_view()).intersect(self.3.mask_clone_view()).intersect(self.4.mask_clone_view()).intersect(self.5.mask_clone_view()).intersect(self.6.mask_clone_view()).intersect(self.7.mask_clone_view()).intersect(self.8.mask_clone_view()).intersect(self.9.mask_clone_view()).intersect(self.10.mask_clone_view()).intersect(self.11.mask_clone_view()).intersect(self.12.mask_clone_view()).intersect(self.13.mask_clone_view())
    }

    fn mask_clone(&self) -> (r: BitSet) {
        let m0 = self.0.mask_clone();
        let m1 = self.1.mask_clone();
        let m2 = self.2.mask_clone();
        let m3 = self.3.mask_clone();
        let m4 = self.4.mask_clone();
        let m5 = self.5.mask_clone();
        let m6 = self.6.mask_clone();
        let m7 = self.7.mask_clone();
        let m8 = self.8.mask_clone();
        let m9 = self.9.mask_clone();
        let m10 = self.10.mask_clone();
        let m11 = self.11.mask_clone();
        let m12 = self.12.mask_clone();
        let m13 = self.13.mask_clone();
        (m0, m1, m2, m3, m4, m5, m6, m7, m8, m9, m10, m11, m12, m13).and()
    }
}

impl<A: Join, B: Join, C: Join, D: Join, E: Join, F: Join, G: Join, H: Join, I: Join, J: Join, K: Join, L: Join, M: Join, N: Join, O: Join> Join for (A, B, C, D, E, F, G, H, I, J, K, L, M, N, O) {
    type Type = (A::Type, B::Type, C::Type, D::Type, E::Type, F::Type, G::Type, H::Type, I::Type, J::Type, K::Type, L::Type, M::Type, N::Type, O::Type);
    type Value = (A::Value, B::Value, C::Value, D::Value, E::Value, F::Value, G::Value, H::Value, I::Value, J::Value, K::Value, L::Value, M::Value, N::Value, O::Value);

    open spec fn mask_view(&self) -> Set<Index> {
        self.0.mask_view().intersect(self.1.mask_view()).intersect(self.2.mask_view()).intersect(self.3.mask_view()).intersect(self.4.mask_view()).intersect(self.5.mask_view()).intersect(self.6.mask_view()).intersect(self.7.mask_view()).intersect(self.8.mask_view()).intersect(self.9.mask_view()).intersect(self.10.mask_view()).intersect(self.11.mask_view()).intersect(self.12.mask_view()).intersect(self.13.mask_view()).intersect(self.14.mask_view())
    }

    open spec fn value_view(&self) -> (A::Value, B::Value, C::Value, D::Value, E::Value, F::Value, G::Value, H::Value, I::Value, J::Value, K::Value, L::Value, M::Value, N::Value, O::Value) {
        (self.0.value_view(), self.1.value_view(), self.2.value_view(), self.3.value_view(), self.4.value_view(), self.5.value_view(), self.6.value_view(), self.7.value_view(), self.8.value_view(), self.9.value_view(), self.10.value_view(), self.11.value_view(), self.12.value_view(), self.13.value_view(), self.14.value_view())
    }

    open spec fn holds(value: (A::Value, B::Value, C::Value, D::Value, E::Value, F::Value, G::Value, H::Value, I::Value, J::Value, K::Value, L::Value, M::Value, N::Value, O::Value), id: Index) -> bool {
        A::holds(value.0, id) && B::holds(value.1, id) && C::holds(value.2, id) && D::holds(value.3, id) && E::holds(value.4, id) && F::holds(value.5, id) && G::holds(value.6, id) && H::holds(value.7, id) && I::holds(value.8, id) && J::holds(value.9, id) && K::holds(value.10, id) && L::holds(value.11, id) && M::holds(value.12, id) && N::holds(value.13, id) && O::holds(value.14, id)
    }

    open spec fn get_spec(value: (A::Value, B::Value, C::Value, D::Value, E::Value, F::Value, G::Value, H::Value, I::Value, J::Value, K::Value, L::Value, M::Value, N::Value, O::Value), id: Index) -> (A::Type, B::Type, C::Type, D::Type, E::Type, F::Type, G::Type, H::Type, I::Type, J::Type, K::Type, L::Type, M::Type, N::Type, O::Type) {
        (A::get_spec(value.0, id), B::get_spec(value.1, id), C::get_spec(value.2, id), D::get_spec(value.3, id), E::get_spec(value.4, id), F::get_spec(value.5, id), G::get_spec(value.6, id), H::get_spec(value.7, id), I::get_spec(value.8, id), J::get_spec(value.9, id), K::get_spec(value.10, id), L::get_spec(value.11, id), M::get_spec(value.12, id), N::get_spec(value.13, id), O::get_spec(value.14, id))
    }

    open spec fn value_after_get(value: (A::Value, B::Value, C::Value, D::Value, E::Value, F::Value, G::Value, H::Value, I::Value, J::Value, K::Value, L::Value, M::Value, N::Value, O::Value), id: Index) -> (A::Value, B::Value, C::Value, D::Value, E::Value, F::Value, G::Value, H::Value, I::Value, J::Value, K::Value, L::Value, M::Value, N::Value, O::Value) {
        (A::value_after_get(value.0, id), B::value_after_get(value.1, id), C::value_after_get(value.2, id), D::value_after_get(value.3, id), E::value_after_get(value.4, id), F::value_after_get(value.5, id), G::value_after_get(value.6, id), H::value_after_get(value.7, id), I::value_after_get(value.8, id), J::value_after_get(value.9, id), K::value_after_get(value.10, id), L::value_after_get(value.11, id), M::value_after_get(value.12, id), N::value_after_get(value.13, id), O::value_after_get(value.14, id))
    }

    fn open(self) -> (r: (BitSet, (A::Value, B::Value, C::Value, D::Value, E::Value, F::Value, G::Value, H::Value, I::Value, J::Value, K::Value, L::Value, M::Value, N::Value, O::Value))) {
        let (a0, a1, a2, a3, a4, a5, a6, a7, a8, a9, a10, a11, a12, a13, a14) = self;
        let (m0, v0) = a0.open();
        let (m1, v1) = a1.open();
        let (m2, v2) = a2.open();
        let (m3, v3) = a3.open();
        let (m4, v4) = a4.open();
        let (m5, v5) = a5.open();
        let (m6, v6) = a6.open();
        let (m7, v7) = a7.open();
        let (m8, v8) = a8.open();
        let (m9, v9) = a9.open();
        let (m10, v10) = a10.open();
        let (m11, v11) = a11.open();
        let (m12, v12) = a12.open();
        let (m13, v13) = a13.open();
        let (m14, v14) = a14.open();
        ((m0, m1, m2, m3, m4, m5, m6, m7, m8, m9, m10, m11, m12, m13, m14).and(), (v0, v1, v2, v3, v4, v5, v6, v7, v8, v9, v10, v11, v12, v13, v14))
    }

    fn get(value: &mut (A::Value, B::Value, C::Value, D::Value, E::Value, F::Value, G::Value, H::Value, I::Value, J::Value, K::Value, L::Value, M::Value, N::Value, O::Value), id: Index) -> (r: (A::Type, B::Type, C::Type, D::Type, E::Type, F::Type, G::Type, H::Type, I::Type, J::Type, K::Type, L::Type, M::Type, N::Type, O::Type)) {
        let r0 = A::get(&mut value.0, id);
        let r1 = B::get(&mut value.1, id);
        let r2 = C::get(&mut value.2, id);
        let r3 = D::get(&mut value.3, id);
        let r4 = E::get(&mut value.4, id);
        let r5 = F::get(&mut value.5, id);
        let r6 = G::get(&mut value.6, id);
        let r7 = H::get(&mut value.7, id);
        let r8 = I::get(&mut value.8, id);
        let r9 = J::get(&mut value.9, id);
        let r10 = K::get(&mut value.10, id);
        let r11 = L::get(&mut value.11, id);
        let r12 = M::get(&mut value.12, id);
        let r13 = N::get(&mut value.13, id);
        let r14 = O::get(&mut value.14, id);
        (r0, r1, r2, r3, r4, r5, r6, r7, r8, r9, r10, r11, r12, r13, r14)
    }
}

impl<A: MaskClone, B: MaskClone, C: MaskClone, D: MaskClone, E: MaskClone, F: MaskClone, G: MaskClone, H: MaskClone, I: MaskClone, J: MaskClone, K: MaskClone, L: MaskClone, M: MaskClone, N: MaskClone, O: MaskClone> MaskClone for (A, B, C, D, E, F, G, H, I, J, K, L, M, N, O) {
    open spec fn mask_clone_view(&self) -> Set<Index> {
        self.0.mask_clone_view().intersect(self.1.mask_clone_view()).intersect(self.2.mask_clone_view()).intersect(self.3.mask_clone_view()).intersect(self.4.mask_clone_view()).intersect(self.5.mask_clone_view()).intersect(self.6.mask_clone_view()).intersect(self.7.mask_clone_view()).intersect(self.8.mask_clone_view()).intersect(self.9.mask_clone_view()).intersect(self.10.mask_clone_view()).intersect(self.11.mask_clone_view()).intersect(self.12.mask_clone_view()).intersect(self.13.mask_clone_view()).intersect(self.14.mask_clone_view())
    }

    fn mask_clone(&self) -> (r: BitSet) {
        let m0 = self.0.mask_clone();
        let m1 = self.1.mask_clone();
        let m2 = self.2.mask_clone();
        let m3 = self.3.mask_clone();
        let m4 = self.4.mask_clone();
        let m5 = self.5.mask_clone();
        let m6 = self.6.mask_clone();
        let m7 = self.7.mask_clone();
        let m8 = self.8.mask_clone();
        let m9 = self.9.mask_clone();
        let m10 = self.10.mask_clone();
        let m11 = self.11.mask_clone();
        let m12 = self.12.mask_clone();
        let m13 = self.13.mask_clone();
        let m14 = self.14.mask_clone();
        (m0, m1, m2, m3, m4, m5, m6, m7, m8, m9, m10, m11, m12, m13, m14).and()
    }
}

impl<A: Join, B: Join, C: Join, D: Join, E: Join, F: Join, G: Join, H: Join, I: Join, J: Join, K: Join, L: Join, M: Join, N: Join, O: Join, P: Join> Join for (A, B, C, D, E, F, G, H, I, J, K, L, M, N, O, P) {
    type Type = (A::Type, B::Type, C::Type, D::Type, E::Type, F::Type, G::Type, H::Type, I::Type, J::Type, K::Type, L::Type, M::Type, N::Type, O::Type, P::Type);
    type Value = (A::Value, B::Value, C::Value, D::Value, E::Value, F::Value, G::Value, H::Value, I::Value, J::Value, K::Value, L::Value, M::Value, N::Value, O::Value, P::Value);

    open spec fn mask_view(&self) -> Set<Index> {
        self.0.mask_view().intersect(self.1.mask_view()).intersect(self.2.mask_view()).intersect(self.3.mask_view()).intersect(self.4.mask_view()).intersect(self.5.mask_view()).intersect(self.6.mask_view()).intersect(self.7.mask_view()).intersect(self.8.mask_view()).intersect(self.9.mask_view()).intersect(self.10.mask_view()).intersect(self.11.mask_view()).intersect(self.12.mask_view()).intersect(self.13.mask_view()).intersect(self.14.mask_view()).intersect(self.15.mask_view())
    }

    open spec fn value_view(&self) -> (A::Value, B::Value, C::Value, D::Value, E::Value, F::Value, G::Value, H::Value, I::Value, J::Value, K::Value, L::Value, M::Value, N::Value, O::Value, P::Value) {
        (self.0.value_view(), self.1.value_view(), self.2.value_view(), self.3.value_view(), self.4.value_view(), self.5.value_view(), self.6.value_view(), self.7.value_view(), self.8.value_view(), self.9.value_view(), self.10.value_view(), self.11.value_view(), self.12.value_view(), self.13.value_view(), self.14.value_view(), self.15.value_view())
    }

    open spec fn holds(value: (A::Value, B::Value, C::Value, D::Value, E::Value, F::Value, G::Value, H::Value, I::Value, J::Value, K::Value, L::Value, M::Value, N::Value, O::Value, P::Value), id: Index) -> bool {
        A::holds(value.0, id) && B::holds(value.1, id) && C::holds(value.2, id) && D::holds(value.3, id) && E::holds(value.4, id) && F::holds(value.5, id) && G::holds(value.6, id) && H::holds(value.7, id) && I::holds(value.8, id) && J::holds(value.9, id) && K::holds(value.10, id) && L::holds(value.11, id) && M::holds(value.12, id) && N::holds(value.13, id) && O::holds(value.14, id) && P::holds(value.15, id)
    }

    open spec fn get_spec(value: (A::Value, B::Value, C::Value, D::Value, E::Value, F::Value, G::Value, H::Value, I::Value, J::Value, K::Value, L::Value, M::Value, N::Value, O::Value, P::Value), id: Index) -> (A::Type, B::Type, C::Type, D::Type, E::Type, F::Type, G::Type, H::Type, I::Type, J::Type, K::Type, L::Type, M::Type, N::Type, O::Type, P::Type) {
        (A::get_spec(value.0, id), B::get_spec(value.1, id), C::get_spec(value.2, id), D::get_spec(value.3, id), E::get_spec(value.4, id), F::get_spec(value.5, id), G::get_spec(value.6, id), H::get_spec(value.7, id), I::get_spec(value.8, id), J::get_spec(value.9, id), K::get_spec(value.10, id), L::get_spec(value.11, id), M::get_spec(value.12, id), N::get_spec(value.13, id), O::get_spec(value.14, id), P::get_spec(value.15, id))
    }

    open spec fn value_after_get(value: (A::Value, B::Value, C::Value, D::Value, E::Value, F::Value, G::Value, H::Value, I::Value, J::Value, K::Value, L::Value, M::Value, N::Value, O::Value, P::Value), id: Index) -> (A::Value, B::Value, C::Value, D::Value, E::Value, F::Value, G::Value, H::Value, I::Value, J::Value, K::Value, L::Value, M::Value, N::Value, O::Value, P::Value) {
        (A::value_after_get(value.0, id), B::value_after_get(value.1, id), C::value_after_get(value.2, id), D::value_after_get(value.3, id), E::value_after_get(value.4, id), F::value_after_get(value.5, id), G::value_after_get(value.6, id), H::value_after_get(value.7, id), I::value_after_get(value.8, id), J::value_after_get(value.9, id), K::value_after_get(value.10, id), L::value_after_get(value.11, id), M::value_after_get(value.12, id), N::value_after_get(value.13, id), O::value_after_get(value.14, id), P::value_after_get(value.15, id))
    }

    fn open(self) -> (r: (BitSet, (A::Value, B::Value, C::Value, D::Value, E::Value, F::Value, G::Value, H::Value, I::Value, J::Value, K::Value, L::Value, M::Value, N::Value, O::Value, P::Value))) {
        let (a0, a1, a2, a3, a4, a5, a6, a7, a8, a9, a10, a11, a12, a13, a14, a15) = self;
        let (m0, v0) = a0.open();
        let (m1, v1) = a1.open();
        let (m2, v2) = a2.open();
        let (m3, v3) = a3.open();
        let (m4, v4) = a4.open();
        let (m5, v5) = a5.open();
        let (m6, v6) = a6.open();
        let (m7, v7) = a7.open();
        let (m8, v8) = a8.open();
        let (m9, v9) = a9.open();
        let (m10, v10) = a10.open();
        let (m11, v11) = a11.open();
        let (m12, v12) = a12.open();
        let (m13, v13) = a13.open();
        let (m14, v14) = a14.open();
        let (m15, v15) = a15.open();
        ((m0, m1, m2, m3, m4, m5, m6, m7, m8, m9, m10, m11, m12, m13, m14, m15).and(), (v0, v1, v2, v3, v4, v5, v6, v7, v8, v9, v10, v11, v12, v13, v14, v15))
    }

    fn get(value: &mut (A::Value, B::Value, C::Value, D::Value, E::Value, F::Value, G::Value, H::Value, I::Value, J::Value, K::Value, L::Value, M::Value, N::Value, O::Value, P::Value), id: Index) -> (r: (A::Type, B::Type, C::Type, D::Type, E::Type, F::Type, G::Type, H::Type, I::Type, J::Type, K::Type, L::Type, M::Type, N::Type, O::Type, P::Type)) {
        let r0 = A::get(&mut value.0, id);
        let r1 = B::get(&mut value.1, id);
        let r2 = C::get(&mut value.2, id);
        let r3 = D::get(&mut value.3, id);
        let r4 = E::get(&mut value.4, id);
        let r5 = F::get(&mut value.5, id);
        let r6 = G::get(&mut value.6, id);
        let r7 = H::get(&mut value.7, id);
        let r8 = I::get(&mut value.8, id);
        let r9 = J::get(&mut value.9, id);
        let r10 = K::get(&mut value.10, id);
        let r11 = L::get(&mut value.11, id);
        let r12 = M::get(&mut value.12, id);
        let r13 = N::get(&mut value.13, id);
        let r14 = O::get(&mut value.14, id);
        let r15 = P::get(&mut value.15, id);
        (r0, r1, r2, r3, r4, r5, r6, r7, r8, r9, r10, r11, r12, r13, r14, r15)
    }
}

impl<A: MaskClone, B: MaskClone, C: MaskClone, D: MaskClone, E: MaskClone, F: MaskClone, G: MaskClone, H: MaskClone, I: MaskClone, J: MaskClone, K: MaskClone, L: MaskClone, M: MaskClone, N: MaskClone, O: MaskClone, P: MaskClone> MaskClone for (A, B, C, D, E, F, G, H, I, J, K, L, M, N, O, P) {
    open spec fn mask_clone_view(&self) -> Set<Index> {
        self.0.mask_clone_view().intersect(self.1.mask_clone_view()).intersect(self.2.mask_clone_view()).intersect(self.3.mask_clone_view()).intersect(self.4.mask_clone_view()).intersect(self.5.mask_clone_view()).intersect(self.6.mask_clone_view()).intersect(self.7.mask_clone_view()).intersect(self.8.mask_clone_view()).intersect(self.9.mask_clone_view()).intersect(self.10.mask_clone_view()).intersect(self.11.mask_clone_view()).intersect(self.12.mask_clone_view()).intersect(self.13.mask_clone_view()).intersect(self.14.mask_clone_view()).intersect(self.15.mask_clone_view())
    }

    fn mask_clone(&self) -> (r: BitSet) {
        let m0 = self.0.mask_clone();
        let m1 = self.1.mask_clone();
        let m2 = self.2.mask_clone();
        let m3 = self.3.mask_clone();
        let m4 = self.4.mask_clone();
        let m5 = self.5.mask_clone();
        let m6 = self.6.mask_clone();
        let m7 = self.7.mask_clone();
        let m8 = self.8.mask_clone();
        let m9 = self.9.mask_clone();
        let m10 = self.10.mask_clone();
        let m11 = self.11.mask_clone();
        let m12 = self.12.mask_clone();
        let m13 = self.13.mask_clone();
        let m14 = self.14.mask_clone();
        let m15 = self.15.mask_clone();
        (m0, m1, m2, m3, m4, m5, m6, m7, m8, m9, m10, m11, m12, m13, m14, m15).and()
    }
}

/// An index is in the mask of a joined pair exactly when both members hold it.
pub proof fn law_pair_mask<A: Join, B: Join>(a: A, b: B, i: Index)
    ensures
        (a, b).mask_view().contains(i) <==> (a.mask_view().contains(i) && b.mask_view().contains(
            i,
        )),
{
}

/// An index is in the mask of a joined triple exactly when all three members hold it.
pub proof fn law_triple_mask<A: Join, B: Join, C: Join>(a: A, b: B, c: C, i: Index)
    ensures
        (a, b, c).mask_view().contains(i) <==> (a.mask_view().contains(i) && b.mask_view().contains(
            i,
        ) && c.mask_view().contains(i)),
{
}

/// The order of the members of a join does not change its mask.
pub proof fn law_mask_order<A: Join, B: Join>(a: A, b: B)
    ensures
        (a, b).mask_view() == (b, a).mask_view(),
{
    assert((a, b).mask_view() =~= (b, a).mask_view());
}

/// Nesting joins does not change the mask: a join of a join and a storage
/// holds the same indices as the flat join of all three.
pub proof fn law_mask_nesting<A: Join, B: Join, C: Join>(a: A, b: B, c: C)
    ensures
        ((a, b), c).mask_view() == (a, b, c).mask_view(),
        (a, (b, c)).mask_view() == (a, b, c).mask_view(),
{
    assert(((a, b), c).mask_view() =~= (a, b, c).mask_view());
    assert((a, (b, c)).mask_view() =~= (a, b, c).mask_view());
}

/// The check of a joined pair holds the indices that both cloned masks hold.
pub proof fn law_pair_check<A: MaskClone, B: MaskClone>(a: A, b: B, i: Index)
    ensures
        (a, b).mask_clone_view().contains(i) <==> (a.mask_clone_view().contains(i)
            && b.mask_clone_view().contains(i)),
{
}

/// Opening a join of one member: an index is in the opened mask exactly
/// when every member holds it, and the opened storages are the members'.
pub proof fn law_join1_open<A: Join>(x0: A, i: Index)
    ensures
        (x0,).mask_view().contains(i) <==> (x0.mask_view().contains(i)),
        (x0,).value_view() == (x0.value_view(),),
{
}

/// Getting from a join of one member: an index may be asked exactly when
/// every member may be asked for it, and `get` hands out, and leaves behind,
/// what each member's `get` does.
pub proof fn law_join1_get<A: Join>(v: (A::Value,), i: Index)
    ensures
        <(A,) as Join>::holds(v, i) <==> (A::holds(v.0, i)),
        <(A,) as Join>::get_spec(v, i) == (A::get_spec(v.0, i),),
        <(A,) as Join>::value_after_get(v, i) == (A::value_after_get(v.0, i),),
{
}

/// Cloning the mask of one member: an index is in the cloned mask exactly
/// when every member's cloned mask holds it.
pub proof fn law_mask_clone1<A: MaskClone>(x0: A, i: Index)
    ensures
        (x0,).mask_clone_view().contains(i) <==> (x0.mask_clone_view().contains(i)),
{
}

/// Opening a join of 2 members: an index is in the opened mask exactly
/// when every member holds it, and the opened storages are the members'.
pub proof fn law_join2_open<A: Join, B: Join>(x0: A, x1: B, i: Index)
    ensures
        (x0, x1).mask_view().contains(i) <==> (x0.mask_view().contains(i) && x1.mask_view().contains(i)),
        (x0, x1).value_view() == (x0.value_view(), x1.value_view()),
{
}

/// Getting from a join of 2 members: an index may be asked exactly when
/// every member may be asked for it, and `get` hands out, and leaves behind,
/// what each member's `get` does.
pub proof fn law_join2_get<A: Join, B: Join>(v: (A::Value, B::Value), i: Index)
    ensures
        <(A, B) as Join>::holds(v, i) <==> (A::holds(v.0, i) && B::holds(v.1, i)),
        <(A, B) as Join>::get_spec(v, i) == (A::get_spec(v.0, i), B::get_spec(v.1, i)),
        <(A, B) as Join>::value_after_get(v, i) == (A::value_after_get(v.0, i), B::value_after_get(v.1, i)),
{
}

/// Cloning the mask of 2 members: an index is in the cloned mask exactly
/// when every member's cloned mask holds it.
pub proof fn law_mask_clone2<A: MaskClone, B: MaskClone>(x0: A, x1: B, i: Index)
    ensures
        (x0, x1).mask_clone_view().contains(i) <==> (x0.mask_clone_view().contains(i) && x1.mask_clone_view().contains(i)),
{
}

/// Opening a join of 3 members: an index is in the opened mask exactly
/// when every member holds it, and the opened storages are the members'.
pub proof fn law_join3_open<A: Join, B: Join, C: Join>(x0: A, x1: B, x2: C, i: Index)
    ensures
        (x0, x1, x2).mask_view().contains(i) <==> (x0.mask_view().contains(i) && x1.mask_view().contains(i) && x2.mask_view().contains(i)),
        (x0, x1, x2).value_view() == (x0.value_view(), x1.value_view(), x2.value_view()),
{
}

/// Getting from a join of 3 members: an index may be asked exactly when
/// every member may be asked for it, and `get` hands out, and leaves behind,
/// what each member's `get` does.
pub proof fn law_join3_get<A: Join, B: Join, C: Join>(v: (A::Value, B::Value, C::Value), i: Index)
    ensures
        <(A, B, C) as Join>::holds(v, i) <==> (A::holds(v.0, i) && B::holds(v.1, i) && C::holds(v.2, i)),
        <(A, B, C) as Join>::get_spec(v, i) == (A::get_spec(v.0, i), B::get_spec(v.1, i), C::get_spec(v.2, i)),
        <(A, B, C) as Join>::value_after_get(v, i) == (A::value_after_get(v.0, i), B::value_after_get(v.1, i), C::value_after_get(v.2, i)),
{
}

/// Cloning the mask of 3 members: an index is in the cloned mask exactly
/// when every member's cloned mask holds it.
pub proof fn law_mask_clone3<A: MaskClone, B: MaskClone, C: MaskClone>(x0: A, x1: B, x2: C, i: Index)
    ensures
        (x0, x1, x2).mask_clone_view().contains(i) <==> (x0.mask_clone_view().contains(i) && x1.mask_clone_view().contains(i) && x2.mask_clone_view().contains(i)),
{
}

/// Opening a join of 4 members: an index is in the opened mask exactly
/// when every member holds it, and the opened storages are the members'.
pub proof fn law_join4_open<A: Join, B: Join, C: Join, D: Join>(x0: A, x1: B, x2: C, x3: D, i: Index)
    ensures
        (x0, x1, x2, x3).mask_view().contains(i) <==> (x0.mask_view().contains(i) && x1.mask_view().contains(i) && x2.mask_view().contains(i) && x3.mask_view().contains(i)),
        (x0, x1, x2, x3).value_view() == (x0.value_view(), x1.value_view(), x2.value_view(), x3.value_view()),
{
}

/// Getting from a join of 4 members: an index may be asked exactly when
/// every member may be asked for it, and `get` hands out, and leaves behind,
/// what each member's `get` does.
pub proof fn law_join4_get<A: Join, B: Join, C: Join, D: Join>(v: (A::Value, B::Value, C::Value, D::Value), i: Index)
    ensures
        <(A, B, C, D) as Join>::holds(v, i) <==> (A::holds(v.0, i) && B::holds(v.1, i) && C::holds(v.2, i) && D::holds(v.3, i)),
        <(A, B, C, D) as Join>::get_spec(v, i) == (A::get_spec(v.0, i), B::get_spec(v.1, i), C::get_spec(v.2, i), D::get_spec(v.3, i)),
        <(A, B, C, D) as Join>::value_after_get(v, i) == (A::value_after_get(v.0, i), B::value_after_get(v.1, i), C::value_after_get(v.2, i), D::value_after_get(v.3, i)),
{
}

/// Cloning the mask of 4 members: an index is in the cloned mask exactly
/// when every member's cloned mask holds it.
pub proof fn law_mask_clone4<A: MaskClone, B: MaskClone, C: MaskClone, D: MaskClone>(x0: A, x1: B, x2: C, x3: D, i: Index)
    ensures
        (x0, x1, x2, x3).mask_clone_view().contains(i) <==> (x0.mask_clone_view().contains(i) && x1.mask_clone_view().contains(i) && x2.mask_clone_view().contains(i) && x3.mask_clone_view().contains(i)),
{
}

/// Opening a join of 5 members: an index is in the opened mask exactly
/// when every member holds it, and the opened storages are the members'.
pub proof fn law_join5_open<A: Join, B: Join, C: Join, D: Join, E: Join>(x0: A, x1: B, x2: C, x3: D, x4: E, i: Index)
    ensures
        (x0, x1, x2, x3, x4).mask_view().contains(i) <==> (x0.mask_view().contains(i) && x1.mask_view().contains(i) && x2.mask_view().contains(i) && x3.mask_view().contains(i) && x4.mask_view().contains(i)),
        (x0, x1, x2, x3, x4).value_view() == (x0.value_view(), x1.value_view(), x2.value_view(), x3.value_view(), x4.value_view()),
{
}

/// Getting from a join of 5 members: an index may be asked exactly when
/// every member may be asked for it, and `get` hands out, and leaves behind,
/// what each member's `get` does.
pub proof fn law_join5_get<A: Join, B: Join, C: Join, D: Join, E: Join>(v: (A::Value, B::Value, C::Value, D::Value, E::Value), i: Index)
    ensures
        <(A, B, C, D, E) as Join>::holds(v, i) <==> (A::holds(v.0, i) && B::holds(v.1, i) && C::holds(v.2, i) && D::holds(v.3, i) && E::holds(v.4, i)),
        <(A, B, C, D, E) as Join>::get_spec(v, i) == (A::get_spec(v.0, i), B::get_spec(v.1, i), C::get_spec(v.2, i), D::get_spec(v.3, i), E::get_spec(v.4, i)),
        <(A, B, C, D, E) as Join>::value_after_get(v, i) == (A::value_after_get(v.0, i), B::value_after_get(v.1, i), C::value_after_get(v.2, i), D::value_after_get(v.3, i), E::value_after_get(v.4, i)),
{
}

/// Cloning the mask of 5 members: an index is in the cloned mask exactly
/// when every member's cloned mask holds it.
pub proof fn law_mask_clone5<A: MaskClone, B: MaskClone, C: MaskClone, D: MaskClone, E: MaskClone>(x0: A, x1: B, x2: C, x3: D, x4: E, i: Index)
    ensures
        (x0, x1, x2, x3, x4).mask_clone_view().contains(i) <==> (x0.mask_clone_view().contains(i) && x1.mask_clone_view().contains(i) && x2.mask_clone_view().contains(i) && x3.mask_clone_view().contains(i) && x4.mask_clone_view().contains(i)),
{
}

/// Opening a join of 6 members: an index is in the opened mask exactly
/// when every member holds it, and the opened storages are the members'.
pub proof fn law_join6_open<A: Join, B: Join, C: Join, D: Join, E: Join, F: Join>(x0: A, x1: B, x2: C, x3: D, x4: E, x5: F, i: Index)
    ensures
        (x0, x1, x2, x3, x4, x5).mask_view().contains(i) <==> (x0.mask_view().contains(i) && x1.mask_view().contains(i) && x2.mask_view().contains(i) && x3.mask_view().contains(i) && x4.mask_view().contains(i) && x5.mask_view().contains(i)),
        (x0, x1, x2, x3, x4, x5).value_view() == (x0.value_view(), x1.value_view(), x2.value_view(), x3.value_view(), x4.value_view(), x5.value_view()),
{
}

/// Getting from a join of 6 members: an index may be asked exactly when
/// every member may be asked for it, and `get` hands out, and leaves behind,
/// what each member's `get` does.
pub proof fn law_join6_get<A: Join, B: Join, C: Join, D: Join, E: Join, F: Join>(v: (A::Value, B::Value, C::Value, D::Value, E::Value, F::Value), i: Index)
    ensures
        <(A, B, C, D, E, F) as Join>::holds(v, i) <==> (A::holds(v.0, i) && B::holds(v.1, i) && C::holds(v.2, i) && D::holds(v.3, i) && E::holds(v.4, i) && F::holds(v.5, i)),
        <(A, B, C, D, E, F) as Join>::get_spec(v, i) == (A::get_spec(v.0, i), B::get_spec(v.1, i), C::get_spec(v.2, i), D::get_spec(v.3, i), E::get_spec(v.4, i), F::get_spec(v.5, i)),
        <(A, B, C, D, E, F) as Join>::value_after_get(v, i) == (A::value_after_get(v.0, i), B::value_after_get(v.1, i), C::value_after_get(v.2, i), D::value_after_get(v.3, i), E::value_after_get(v.4, i), F::value_after_get(v.5, i)),
{
}

/// Cloning the mask of 6 members: an index is in the cloned mask exactly
/// when every member's cloned mask holds it.
pub proof fn law_mask_clone6<A: MaskClone, B: MaskClone, C: MaskClone, D: MaskClone, E: MaskClone, F: MaskClone>(x0: A, x1: B, x2: C, x3: D, x4: E, x5: F, i: Index)
    ensures
        (x0, x1, x2, x3, x4, x5).mask_clone_view().contains(i) <==> (x0.mask_clone_view().contains(i) && x1.mask_clone_view().contains(i) && x2.mask_clone_view().contains(i) && x3.mask_clone_view().contains(i) && x4.mask_clone_view().contains(i) && x5.mask_clone_view().contains(i)),
{
}

/// Opening a join of 7 members: an index is in the opened mask exactly
/// when every member holds it, and the opened storages are the members'.
pub proof fn law_join7_open<A: Join, B: Join, C: Join, D: Join, E: Join, F: Join, G: Join>(x0: A, x1: B, x2: C, x3: D, x4: E, x5: F, x6: G, i: Index)
    ensures
        (x0, x1, x2, x3, x4, x5, x6).mask_view().contains(i) <==> (x0.mask_view().contains(i) && x1.mask_view().contains(i) && x2.mask_view().contains(i) && x3.mask_view().contains(i) && x4.mask_view().contains(i) && x5.mask_view().contains(i) && x6.mask_view().contains(i)),
        (x0, x1, x2, x3, x4, x5, x6).value_view() == (x0.value_view(), x1.value_view(), x2.value_view(), x3.value_view(), x4.value_view(), x5.value_view(), x6.value_view()),
{
}

/// Getting from a join of 7 members: an index may be asked exactly when
/// every member may be asked for it, and `get` hands out, and leaves behind,
/// what each member's `get` does.
pub proof fn law_join7_get<A: Join, B: Join, C: Join, D: Join, E: Join, F: Join, G: Join>(v: (A::Value, B::Value, C::Value, D::Value, E::Value, F::Value, G::Value), i: Index)
    ensures
        <(A, B, C, D, E, F, G) as Join>::holds(v, i) <==> (A::holds(v.0, i) && B::holds(v.1, i) && C::holds(v.2, i) && D::holds(v.3, i) && E::holds(v.4, i) && F::holds(v.5, i) && G::holds(v.6, i)),
        <(A, B, C, D, E, F, G) as Join>::get_spec(v, i) == (A::get_spec(v.0, i), B::get_spec(v.1, i), C::get_spec(v.2, i), D::get_spec(v.3, i), E::get_spec(v.4, i), F::get_spec(v.5, i), G::get_spec(v.6, i)),
        <(A, B, C, D, E, F, G) as Join>::value_after_get(v, i) == (A::value_after_get(v.0, i), B::value_after_get(v.1, i), C::value_after_get(v.2, i), D::value_after_get(v.3, i), E::value_after_get(v.4, i), F::value_after_get(v.5, i), G::value_after_get(v.6, i)),
{
}

/// Cloning the mask of 7 members: an index is in the cloned mask exactly
/// when every member's cloned mask holds it.
pub proof fn law_mask_clone7<A: MaskClone, B: MaskClone, C: MaskClone, D: MaskClone, E: MaskClone, F: MaskClone, G: MaskClone>(x0: A, x1: B, x2: C, x3: D, x4: E, x5: F, x6: G, i: Index)
    ensures
        (x0, x1, x2, x3, x4, x5, x6).mask_clone_view().contains(i) <==> (x0.mask_clone_view().contains(i) && x1.mask_clone_view().contains(i) && x2.mask_clone_view().contains(i) && x3.mask_clone_view().contains(i) && x4.mask_clone_view().contains(i) && x5.mask_clone_view().contains(i) && x6.mask_clone_view().contains(i)),
{
}

/// Opening a join of 8 members: an index is in the opened mask exactly
/// when every member holds it, and the opened storages are the members'.
pub proof fn law_join8_open<A: Join, B: Join, C: Join, D: Join, E: Join, F: Join, G: Join, H: Join>(x0: A, x1: B, x2: C, x3: D, x4: E, x5: F, x6: G, x7: H, i: Index)
    ensures
        (x0, x1, x2, x3, x4, x5, x6, x7).mask_view().contains(i) <==> (x0.mask_view().contains(i) && x1.mask_view().contains(i) && x2.mask_view().contains(i) && x3.mask_view().contains(i) && x4.mask_view().contains(i) && x5.mask_view().contains(i) && x6.mask_view().contains(i) && x7.mask_view().contains(i)),
        (x0, x1, x2, x3, x4, x5, x6, x7).value_view() == (x0.value_view(), x1.value_view(), x2.value_view(), x3.value_view(), x4.value_view(), x5.value_view(), x6.value_view(), x7.value_view()),
{
}

/// Getting from a join of 8 members: an index may be asked exactly when
/// every member may be asked for it, and `get` hands out, and leaves behind,
/// what each member's `get` does.
pub proof fn law_join8_get<A: Join, B: Join, C: Join, D: Join, E: Join, F: Join, G: Join, H: Join>(v: (A::Value, B::Value, C::Value, D::Value, E::Value, F::Value, G::Value, H::Value), i: Index)
    ensures
        <(A, B, C, D, E, F, G, H) as Join>::holds(v, i) <==> (A::holds(v.0, i) && B::holds(v.1, i) && C::holds(v.2, i) && D::holds(v.3, i) && E::holds(v.4, i) && F::holds(v.5, i) && G::holds(v.6, i) && H::holds(v.7, i)),
        <(A, B, C, D, E, F, G, H) as Join>::get_spec(v, i) == (A::get_spec(v.0, i), B::get_spec(v.1, i), C::get_spec(v.2, i), D::get_spec(v.3, i), E::get_spec(v.4, i), F::get_spec(v.5, i), G::get_spec(v.6, i), H::get_spec(v.7, i)),
        <(A, B, C, D, E, F, G, H) as Join>::value_after_get(v, i) == (A::value_after_get(v.0, i), B::value_after_get(v.1, i), C::value_after_get(v.2, i), D::value_after_get(v.3, i), E::value_after_get(v.4, i), F::value_after_get(v.5, i), G::value_after_get(v.6, i), H::value_after_get(v.7, i)),
{
}

/// Cloning the mask of 8 members: an index is in the cloned mask exactly
/// when every member's cloned mask holds it.
pub proof fn law_mask_clone8<A: MaskClone, B: MaskClone, C: MaskClone, D: MaskClone, E: MaskClone, F: MaskClone, G: MaskClone, H: MaskClone>(x0: A, x1: B, x2: C, x3: D, x4: E, x5: F, x6: G, x7: H, i: Index)
    ensures
        (x0, x1, x2, x3, x4, x5, x6, x7).mask_clone_view().contains(i) <==> (x0.mask_clone_view().contains(i) && x1.mask_clone_view().contains(i) && x2.mask_clone_view().contains(i) && x3.mask_clone_view().contains(i) && x4.mask_clone_view().contains(i) && x5.mask_clone_view().contains(i) && x6.mask_clone_view().contains(i) && x7.mask_clone_view().contains(i)),
{
}

/// Opening a join of 9 members: an index is in the opened mask exactly
/// when every member holds it, and the opened storages are the members'.
pub proof fn law_join9_open<A: Join, B: Join, C: Join, D: Join, E: Join, F: Join, G: Join, H: Join, I: Join>(x0: A, x1: B, x2: C, x3: D, x4: E, x5: F, x6: G, x7: H, x8: I, i: Index)
    ensures
        (x0, x1, x2, x3, x4, x5, x6, x7, x8).mask_view().contains(i) <==> (x0.mask_view().contains(i) && x1.mask_view().contains(i) && x2.mask_view().contains(i) && x3.mask_view().contains(i) && x4.mask_view().contains(i) && x5.mask_view().contains(i) && x6.mask_view().contains(i) && x7.mask_view().contains(i) && x8.mask_view().contains(i)),
        (x0, x1, x2, x3, x4, x5, x6, x7, x8).value_view() == (x0.value_view(), x1.value_view(), x2.value_view(), x3.value_view(), x4.value_view(), x5.value_view(), x6.value_view(), x7.value_view(), x8.value_view()),
{
}

/// Getting from a join of 9 members: an index may be asked exactly when
/// every member may be asked for it, and `get` hands out, and leaves behind,
/// what each member's `get` does.
pub proof fn law_join9_get<A: Join, B: Join, C: Join, D: Join, E: Join, F: Join, G: Join, H: Join, I: Join>(v: (A::Value, B::Value, C::Value, D::Value, E::Value, F::Value, G::Value, H::Value, I::Value), i: Index)
    ensures
        <(A, B, C, D, E, F, G, H, I) as Join>::holds(v, i) <==> (A::holds(v.0, i) && B::holds(v.1, i) && C::holds(v.2, i) && D::holds(v.3, i) && E::holds(v.4, i) && F::holds(v.5, i) && G::holds(v.6, i) && H::holds(v.7, i) && I::holds(v.8, i)),
        <(A, B, C, D, E, F, G, H, I) as Join>::get_spec(v, i) == (A::get_spec(v.0, i), B::get_spec(v.1, i), C::get_spec(v.2, i), D::get_spec(v.3, i), E::get_spec(v.4, i), F::get_spec(v.5, i), G::get_spec(v.6, i), H::get_spec(v.7, i), I::get_spec(v.8, i)),
        <(A, B, C, D, E, F, G, H, I) as Join>::value_after_get(v, i) == (A::value_after_get(v.0, i), B::value_after_get(v.1, i), C::value_after_get(v.2, i), D::value_after_get(v.3, i), E::value_after_get(v.4, i), F::value_after_get(v.5, i), G::value_after_get(v.6, i), H::value_after_get(v.7, i), I::value_after_get(v.8, i)),
{
}

/// Cloning the mask of 9 members: an index is in the cloned mask exactly
/// when every member's cloned mask holds it.
pub proof fn law_mask_clone9<A: MaskClone, B: MaskClone, C: MaskClone, D: MaskClone, E: MaskClone, F: MaskClone, G: MaskClone, H: MaskClone, I: MaskClone>(x0: A, x1: B, x2: C, x3: D, x4: E, x5: F, x6: G, x7: H, x8: I, i: Index)
    ensures
        (x0, x1, x2, x3, x4, x5, x6, x7, x8).mask_clone_view().contains(i) <==> (x0.mask_clone_view().contains(i) && x1.mask_clone_view().contains(i) && x2.mask_clone_view().contains(i) && x3.mask_clone_view().contains(i) && x4.mask_clone_view().contains(i) && x5.mask_clone_view().contains(i) && x6.mask_clone_view().contains(i) && x7.mask_clone_view().contains(i) && x8.mask_clone_view().contains(i)),
{
}

/// Opening a join of 10 members: an index is in the opened mask exactly
/// when every member holds it, and the opened storages are the members'.
pub proof fn law_join10_open<A: Join, B: Join, C: Join, D: Join, E: Join, F: Join, G: Join, H: Join, I: Join, J: Join>(x0: A, x1: B, x2: C, x3: D, x4: E, x5: F, x6: G, x7: H, x8: I, x9: J, i: Index)
    ensures
        (x0, x1, x2, x3, x4, x5, x6, x7, x8, x9).mask_view().contains(i) <==> (x0.mask_view().contains(i) && x1.mask_view().contains(i) && x2.mask_view().contains(i) && x3.mask_view().contains(i) && x4.mask_view().contains(i) && x5.mask_view().contains(i) && x6.mask_view().contains(i) && x7.mask_view().contains(i) && x8.mask_view().contains(i) && x9.mask_view().contains(i)),
        (x0, x1, x2, x3, x4, x5, x6, x7, x8, x9).value_view() == (x0.value_view(), x1.value_view(), x2.value_view(), x3.value_view(), x4.value_view(), x5.value_view(), x6.value_view(), x7.value_view(), x8.value_view(), x9.value_view()),
{
}

/// Getting from a join of 10 members: an index may be asked exactly when
/// every member may be asked for it, and `get` hands out, and leaves behind,
/// what each member's `get` does.
pub proof fn law_join10_get<A: Join, B: Join, C: Join, D: Join, E: Join, F: Join, G: Join, H: Join, I: Join, J: Join>(v: (A::Value, B::Value, C::Value, D::Value, E::Value, F::Value, G::Value, H::Value, I::Value, J::Value), i: Index)
    ensures
        <(A, B, C, D, E, F, G, H, I, J) as Join>::holds(v, i) <==> (A::holds(v.0, i) && B::holds(v.1, i) && C::holds(v.2, i) && D::holds(v.3, i) && E::holds(v.4, i) && F::holds(v.5, i) && G::holds(v.6, i) && H::holds(v.7, i) && I::holds(v.8, i) && J::holds(v.9, i)),
        <(A, B, C, D, E, F, G, H, I, J) as Join>::get_spec(v, i) == (A::get_spec(v.0, i), B::get_spec(v.1, i), C::get_spec(v.2, i), D::get_spec(v.3, i), E::get_spec(v.4, i), F::get_spec(v.5, i), G::get_spec(v.6, i), H::get_spec(v.7, i), I::get_spec(v.8, i), J::get_spec(v.9, i)),
        <(A, B, C, D, E, F, G, H, I, J) as Join>::value_after_get(v, i) == (A::value_after_get(v.0, i), B::value_after_get(v.1, i), C::value_after_get(v.2, i), D::value_after_get(v.3, i), E::value_after_get(v.4, i), F::value_after_get(v.5, i), G::value_after_get(v.6, i), H::value_after_get(v.7, i), I::value_after_get(v.8, i), J::value_after_get(v.9, i)),
{
}

/// Cloning the mask of 10 members: an index is in the cloned mask exactly
/// when every member's cloned mask holds it.
pub proof fn law_mask_clone10<A: MaskClone, B: MaskClone, C: MaskClone, D: MaskClone, E: MaskClone, F: MaskClone, G: MaskClone, H: MaskClone, I: MaskClone, J: MaskClone>(x0: A, x1: B, x2: C, x3: D, x4: E, x5: F, x6: G, x7: H, x8: I, x9: J, i: Index)
    ensures
        (x0, x1, x2, x3, x4, x5, x6, x7, x8, x9).mask_clone_view().contains(i) <==> (x0.mask_clone_view().contains(i) && x1.mask_clone_view().contains(i) && x2.mask_clone_view().contains(i) && x3.mask_clone_view().contains(i) && x4.mask_clone_view().contains(i) && x5.mask_clone_view().contains(i) && x6.mask_clone_view().contains(i) && x7.mask_clone_view().contains(i) && x8.mask_clone_view().contains(i) && x9.mask_clone_view().contains(i)),
{
}

/// Opening a join of 11 members: an index is in the opened mask exactly
/// when every member holds it, and the opened storages are the members'.
pub proof fn law_join11_open<A: Join, B: Join, C: Join, D: Join, E: Join, F: Join, G: Join, H: Join, I: Join, J: Join, K: Join>(x0: A, x1: B, x2: C, x3: D, x4: E, x5: F, x6: G, x7: H, x8: I, x9: J, x10: K, i: Index)
    ensures
        (x0, x1, x2, x3, x4, x5, x6, x7, x8, x9, x10).mask_view().contains(i) <==> (x0.mask_view().contains(i) && x1.mask_view().contains(i) && x2.mask_view().contains(i) && x3.mask_view().contains(i) && x4.mask_view().contains(i) && x5.mask_view().contains(i) && x6.mask_view().contains(i) && x7.mask_view().contains(i) && x8.mask_view().contains(i) && x9.mask_view().contains(i) && x10.mask_view().contains(i)),
        (x0, x1, x2, x3, x4, x5, x6, x7, x8, x9, x10).value_view() == (x0.value_view(), x1.value_view(), x2.value_view(), x3.value_view(), x4.value_view(), x5.value_view(), x6.value_view(), x7.value_view(), x8.value_view(), x9.value_view(), x10.value_view()),
{
}

/// Getting from a join of 11 members: an index may be asked exactly when
/// every member may be asked for it, and `get` hands out, and leaves behind,
/// what each member's `get` does.
pub proof fn law_join11_get<A: Join, B: Join, C: Join, D: Join, E: Join, F: Join, G: Join, H: Join, I: Join, J: Join, K: Join>(v: (A::Value, B::Value, C::Value, D::Value, E::Value, F::Value, G::Value, H::Value, I::Value, J::Value, K::Value), i: Index)
    ensures
        <(A, B, C, D, E, F, G, H, I, J, K) as Join>::holds(v, i) <==> (A::holds(v.0, i) && B::holds(v.1, i) && C::holds(v.2, i) && D::holds(v.3, i) && E::holds(v.4, i) && F::holds(v.5, i) && G::holds(v.6, i) && H::holds(v.7, i) && I::holds(v.8, i) && J::holds(v.9, i) && K::holds(v.10, i)),
        <(A, B, C, D, E, F, G, H, I, J, K) as Join>::get_spec(v, i) == (A::get_spec(v.0, i), B::get_spec(v.1, i), C::get_spec(v.2, i), D::get_spec(v.3, i), E::get_spec(v.4, i), F::get_spec(v.5, i), G::get_spec(v.6, i), H::get_spec(v.7, i), I::get_spec(v.8, i), J::get_spec(v.9, i), K::get_spec(v.10, i)),
        <(A, B, C, D, E, F, G, H, I, J, K) as Join>::value_after_get(v, i) == (A::value_after_get(v.0, i), B::value_after_get(v.1, i), C::value_after_get(v.2, i), D::value_after_get(v.3, i), E::value_after_get(v.4, i), F::value_after_get(v.5, i), G::value_after_get(v.6, i), H::value_after_get(v.7, i), I::value_after_get(v.8, i), J::value_after_get(v.9, i), K::value_after_get(v.10, i)),
{
}

/// Cloning the mask of 11 members: an index is in the cloned mask exactly
/// when every member's cloned mask holds it.
pub proof fn law_mask_clone11<A: MaskClone, B: MaskClone, C: MaskClone, D: MaskClone, E: MaskClone, F: MaskClone, G: MaskClone, H: MaskClone, I: MaskClone, J: MaskClone, K: MaskClone>(x0: A, x1: B, x2: C, x3: D, x4: E, x5: F, x6: G, x7: H, x8: I, x9: J, x10: K, i: Index)
    ensures
        (x0, x1, x2, x3, x4, x5, x6, x7, x8, x9, x10).mask_clone_view().contains(i) <==> (x0.mask_clone_view().contains(i) && x1.mask_clone_view().contains(i) && x2.mask_clone_view().contains(i) && x3.mask_clone_view().contains(i) && x4.mask_clone_view().contains(i) && x5.mask_clone_view().contains(i) && x6.mask_clone_view().contains(i) && x7.mask_clone_view().contains(i) && x8.mask_clone_view().contains(i) && x9.mask_clone_view().contains(i) && x10.mask_clone_view().contains(i)),
{
}

/// Opening a join of 12 members: an index is in the opened mask exactly
/// when every member holds it, and the opened storages are the members'.
pub proof fn law_join12_open<A: Join, B: Join, C: Join, D: Join, E: Join, F: Join, G: Join, H: Join, I: Join, J: Join, K: Join, L: Join>(x0: A, x1: B, x2: C, x3: D, x4: E, x5: F, x6: G, x7: H, x8: I, x9: J, x10: K, x11: L, i: Index)
    ensures
        (x0, x1, x2, x3, x4, x5, x6, x7, x8, x9, x10, x11).mask_view().contains(i) <==> (x0.mask_view().contains(i) && x1.mask_view().contains(i) && x2.mask_view().contains(i) && x3.mask_view().contains(i) && x4.mask_view().contains(i) && x5.mask_view().contains(i) && x6.mask_view().contains(i) && x7.mask_view().contains(i) && x8.mask_view().contains(i) && x9.mask_view().contains(i) && x10.mask_view().contains(i) && x11.mask_view().contains(i)),
        (x0, x1, x2, x3, x4, x5, x6, x7, x8, x9, x10, x11).value_view() == (x0.value_view(), x1.value_view(), x2.value_view(), x3.value_view(), x4.value_view(), x5.value_view(), x6.value_view(), x7.value_view(), x8.value_view(), x9.value_view(), x10.value_view(), x11.value_view()),
{
}

/// Getting from a join of 12 members: an index may be asked exactly when
/// every member may be asked for it, and `get` hands out, and leaves behind,
/// what each member's `get` does.
pub proof fn law_join12_get<A: Join, B: Join, C: Join, D: Join, E: Join, F: Join, G: Join, H: Join, I: Join, J: Join, K: Join, L: Join>(v: (A::Value, B::Value, C::Value, D::Value, E::Value, F::Value, G::Value, H::Value, I::Value, J::Value, K::Value, L::Value), i: Index)
    ensures
        <(A, B, C, D, E, F, G, H, I, J, K, L) as Join>::holds(v, i) <==> (A::holds(v.0, i) && B::holds(v.1, i) && C::holds(v.2, i) && D::holds(v.3, i) && E::holds(v.4, i) && F::holds(v.5, i) && G::holds(v.6, i) && H::holds(v.7, i) && I::holds(v.8, i) && J::holds(v.9, i) && K::holds(v.10, i) && L::holds(v.11, i)),
        <(A, B, C, D, E, F, G, H, I, J, K, L) as Join>::get_spec(v, i) == (A::get_spec(v.0, i), B::get_spec(v.1, i), C::get_spec(v.2, i), D::get_spec(v.3, i), E::get_spec(v.4, i), F::get_spec(v.5, i), G::get_spec(v.6, i), H::get_spec(v.7, i), I::get_spec(v.8, i), J::get_spec(v.9, i), K::get_spec(v.10, i), L::get_spec(v.11, i)),
        <(A, B, C, D, E, F, G, H, I, J, K, L) as Join>::value_after_get(v, i) == (A::value_after_get(v.0, i), B::value_after_get(v.1, i), C::value_after_get(v.2, i), D::value_after_get(v.3, i), E::value_after_get(v.4, i), F::value_after_get(v.5, i), G::value_after_get(v.6, i), H::value_after_get(v.7, i), I::value_after_get(v.8, i), J::value_after_get(v.9, i), K::value_after_get(v.10, i), L::value_after_get(v.11, i)),
{
}

/// Cloning the mask of 12 members: an index is in the cloned mask exactly
/// when every member's cloned mask holds it.
pub proof fn law_mask_clone12<A: MaskClone, B: MaskClone, C: MaskClone, D: MaskClone, E: MaskClone, F: MaskClone, G: MaskClone, H: MaskClone, I: MaskClone, J: MaskClone, K: MaskClone, L: MaskClone>(x0: A, x1: B, x2: C, x3: D, x4: E, x5: F, x6: G, x7: H, x8: I, x9: J, x10: K, x11: L, i: Index)
    ensures
        (x0, x1, x2, x3, x4, x5, x6, x7, x8, x9, x10, x11).mask_clone_view().contains(i) <==> (x0.mask_clone_view().contains(i) && x1.mask_clone_view().contains(i) && x2.mask_clone_view().contains(i) && x3.mask_clone_view().contains(i) && x4.mask_clone_view().contains(i) && x5.mask_clone_view().contains(i) && x6.mask_clone_view().contains(i) && x7.mask_clone_view().contains(i) && x8.mask_clone_view().contains(i) && x9.mask_clone_view().contains(i) && x10.mask_clone_view().contains(i) && x11.mask_clone_view().contains(i)),
{
}

/// Opening a join of 13 members: an index is in the opened mask exactly
/// when every member holds it, and the opened storages are the members'.
pub proof fn law_join13_open<A: Join, B: Join, C: Join, D: Join, E: Join, F: Join, G: Join, H: Join, I: Join, J: Join, K: Join, L: Join, M: Join>(x0: A, x1: B, x2: C, x3: D, x4: E, x5: F, x6: G, x7: H, x8: I, x9: J, x10: K, x11: L, x12: M, i: Index)
    ensures
        (x0, x1, x2, x3, x4, x5, x6, x7, x8, x9, x10, x11, x12).mask_view().contains(i) <==> (x0.mask_view().contains(i) && x1.mask_view().contains(i) && x2.mask_view().contains(i) && x3.mask_view().contains(i) && x4.mask_view().contains(i) && x5.mask_view().contains(i) && x6.mask_view().contains(i) && x7.mask_view().contains(i) && x8.mask_view().contains(i) && x9.mask_view().contains(i) && x10.mask_view().contains(i) && x11.mask_view().contains(i) && x12.mask_view().contains(i)),
        (x0, x1, x2, x3, x4, x5, x6, x7, x8, x9, x10, x11, x12).value_view() == (x0.value_view(), x1.value_view(), x2.value_view(), x3.value_view(), x4.value_view(), x5.value_view(), x6.value_view(), x7.value_view(), x8.value_view(), x9.value_view(), x10.value_view(), x11.value_view(), x12.value_view()),
{
}

/// Getting from a join of 13 members: an index may be asked exactly when
/// every member may be asked for it, and `get` hands out, and leaves behind,
/// what each member's `get` does.
pub proof fn law_join13_get<A: Join, B: Join, C: Join, D: Join, E: Join, F: Join, G: Join, H: Join, I: Join, J: Join, K: Join, L: Join, M: Join>(v: (A::Value, B::Value, C::Value, D::Value, E::Value, F::Value, G::Value, H::Value, I::Value, J::Value, K::Value, L::Value, M::Value), i: Index)
    ensures
        <(A, B, C, D, E, F, G, H, I, J, K, L, M) as Join>::holds(v, i) <==> (A::holds(v.0, i) && B::holds(v.1, i) && C::holds(v.2, i) && D::holds(v.3, i) && E::holds(v.4, i) && F::holds(v.5, i) && G::holds(v.6, i) && H::holds(v.7, i) && I::holds(v.8, i) && J::holds(v.9, i) && K::holds(v.10, i) && L::holds(v.11, i) && M::holds(v.12, i)),
        <(A, B, C, D, E, F, G, H, I, J, K, L, M) as Join>::get_spec(v, i) == (A::get_spec(v.0, i), B::get_spec(v.1, i), C::get_spec(v.2, i), D::get_spec(v.3, i), E::get_spec(v.4, i), F::get_spec(v.5, i), G::get_spec(v.6, i), H::get_spec(v.7, i), I::get_spec(v.8, i), J::get_spec(v.9, i), K::get_spec(v.10, i), L::get_spec(v.11, i), M::get_spec(v.12, i)),
        <(A, B, C, D, E, F, G, H, I, J, K, L, M) as Join>::value_after_get(v, i) == (A::value_after_get(v.0, i), B::value_after_get(v.1, i), C::value_after_get(v.2, i), D::value_after_get(v.3, i), E::value_after_get(v.4, i), F::value_after_get(v.5, i), G::value_after_get(v.6, i), H::value_after_get(v.7, i), I::value_after_get(v.8, i), J::value_after_get(v.9, i), K::value_after_get(v.10, i), L::value_after_get(v.11, i), M::value_after_get(v.12, i)),
{
}

/// Cloning the mask of 13 members: an index is in the cloned mask exactly
/// when every member's cloned mask holds it.
pub proof fn law_mask_clone13<A: MaskClone, B: MaskClone, C: MaskClone, D: MaskClone, E: MaskClone, F: MaskClone, G: MaskClone, H: MaskClone, I: MaskClone, J: MaskClone, K: MaskClone, L: MaskClone, M: MaskClone>(x0: A, x1: B, x2: C, x3: D, x4: E, x5: F, x6: G, x7: H, x8: I, x9: J, x10: K, x11: L, x12: M, i: Index)
    ensures
        (x0, x1, x2, x3, x4, x5, x6, x7, x8, x9, x10, x11, x12).mask_clone_view().contains(i) <==> (x0.mask_clone_view().contains(i) && x1.mask_clone_view().contains(i) && x2.mask_clone_view().contains(i) && x3.mask_clone_view().contains(i) && x4.mask_clone_view().contains(i) && x5.mask_clone_view().contains(i) && x6.mask_clone_view().contains(i) && x7.mask_clone_view().contains(i) && x8.mask_clone_view().contains(i) && x9.mask_clone_view().contains(i) && x10.mask_clone_view().contains(i) && x11.mask_clone_view().contains(i) && x12.mask_clone_view().contains(i)),
{
}

/// Opening a join of 14 members: an index is in the opened mask exactly
/// when every member holds it, and the opened storages are the members'.
pub proof fn law_join14_open<A: Join, B: Join, C: Join, D: Join, E: Join, F: Join, G: Join, H: Join, I: Join, J: Join, K: Join, L: Join, M: Join, N: Join>(x0: A, x1: B, x2: C, x3: D, x4: E, x5: F, x6: G, x7: H, x8: I, x9: J, x10: K, x11: L, x12: M, x13: N, i: Index)
    ensures
        (x0, x1, x2, x3, x4, x5, x6, x7, x8, x9, x10, x11, x12, x13).mask_view().contains(i) <==> (x0.mask_view().contains(i) && x1.mask_view().contains(i) && x2.mask_view().contains(i) && x3.mask_view().contains(i) && x4.mask_view().contains(i) && x5.mask_view().contains(i) && x6.mask_view().contains(i) && x7.mask_view().contains(i) && x8.mask_view().contains(i) && x9.mask_view().contains(i) && x10.mask_view().contains(i) && x11.mask_view().contains(i) && x12.mask_view().contains(i) && x13.mask_view().contains(i)),
        (x0, x1, x2, x3, x4, x5, x6, x7, x8, x9, x10, x11, x12, x13).value_view() == (x0.value_view(), x1.value_view(), x2.value_view(), x3.value_view(), x4.value_view(), x5.value_view(), x6.value_view(), x7.value_view(), x8.value_view(), x9.value_view(), x10.value_view(), x11.value_view(), x12.value_view(), x13.value_view()),
{
}

/// Getting from a join of 14 members: an index may be asked exactly when
/// every member may be asked for it, and `get` hands out, and leaves behind,
/// what each member's `get` does.
pub proof fn law_join14_get<A: Join, B: Join, C: Join, D: Join, E: Join, F: Join, G: Join, H: Join, I: Join, J: Join, K: Join, L: Join, M: Join, N: Join>(v: (A::Value, B::Value, C::Value, D::Value, E::Value, F::Value, G::Value, H::Value, I::Value, J::Value, K::Value, L::Value, M::Value, N::Value), i: Index)
    ensures
        <(A, B, C, D, E, F, G, H, I, J, K, L, M, N) as Join>::holds(v, i) <==> (A::holds(v.0, i) && B::holds(v.1, i) && C::holds(v.2, i) && D::holds(v.3, i) && E::holds(v.4, i) && F::holds(v.5, i) && G::holds(v.6, i) && H::holds(v.7, i) && I::holds(v.8, i) && J::holds(v.9, i) && K::holds(v.10, i) && L::holds(v.11, i) && M::holds(v.12, i) && N::holds(v.13, i)),
        <(A, B, C, D, E, F, G, H, I, J, K, L, M, N) as Join>::get_spec(v, i) == (A::get_spec(v.0, i), B::get_spec(v.1, i), C::get_spec(v.2, i), D::get_spec(v.3, i), E::get_spec(v.4, i), F::get_spec(v.5, i), G::get_spec(v.6, i), H::get_spec(v.7, i), I::get_spec(v.8, i), J::get_spec(v.9, i), K::get_spec(v.10, i), L::get_spec(v.11, i), M::get_spec(v.12, i), N::get_spec(v.13, i)),
        <(A, B, C, D, E, F, G, H, I, J, K, L, M, N) as Join>::value_after_get(v, i) == (A::value_after_get(v.0, i), B::value_after_get(v.1, i), C::value_after_get(v.2, i), D::value_after_get(v.3, i), E::value_after_get(v.4, i), F::value_after_get(v.5, i), G::value_after_get(v.6, i), H::value_after_get(v.7, i), I::value_after_get(v.8, i), J::value_after_get(v.9, i), K::value_after_get(v.10, i), L::value_after_get(v.11, i), M::value_after_get(v.12, i), N::value_after_get(v.13, i)),
{
}

/// Cloning the mask of 14 members: an index is in the cloned mask exactly
/// when every member's cloned mask holds it.
pub proof fn law_mask_clone14<A: MaskClone, B: MaskClone, C: MaskClone, D: MaskClone, E: MaskClone, F: MaskClone, G: MaskClone, H: MaskClone, I: MaskClone, J: MaskClone, K: MaskClone, L: MaskClone, M: MaskClone, N: MaskClone>(x0: A, x1: B, x2: C, x3: D, x4: E, x5: F, x6: G, x7: H, x8: I, x9: J, x10: K, x11: L, x12: M, x13: N, i: Index)
    ensures
        (x0, x1, x2, x3, x4, x5, x6, x7, x8, x9, x10, x11, x12, x13).mask_clone_view().contains(i) <==> (x0.mask_clone_view().contains(i) && x1.mask_clone_view().contains(i) && x2.mask_clone_view().contains(i) && x3.mask_clone_view().contains(i) && x4.mask_clone_view().contains(i) && x5.mask_clone_view().contains(i) && x6.mask_clone_view().contains(i) && x7.mask_clone_view().contains(i) && x8.mask_clone_view().contains(i) && x9.mask_clone_view().contains(i) && x10.mask_clone_view().contains(i) && x11.mask_clone_view().contains(i) && x12.mask_clone_view().contains(i) && x13.mask_clone_view().contains(i)),
{
}

/// Opening a join of 15 members: an index is in the opened mask exactly
/// when every member holds it, and the opened storages are the members'.
pub proof fn law_join15_open<A: Join, B: Join, C: Join, D: Join, E: Join, F: Join, G: Join, H: Join, I: Join, J: Join, K: Join, L: Join, M: Join, N: Join, O: Join>(x0: A, x1: B, x2: C, x3: D, x4: E, x5: F, x6: G, x7: H, x8: I, x9: J, x10: K, x11: L, x12: M, x13: N, x14: O, i: Index)
    ensures
        (x0, x1, x2, x3, x4, x5, x6, x7, x8, x9, x10, x11, x12, x13, x14).mask_view().contains(i) <==> (x0.mask_view().contains(i) && x1.mask_view().contains(i) && x2.mask_view().contains(i) && x3.mask_view().contains(i) && x4.mask_view().contains(i) && x5.mask_view().contains(i) && x6.mask_view().contains(i) && x7.mask_view().contains(i) && x8.mask_view().contains(i) && x9.mask_view().contains(i) && x10.mask_view().contains(i) && x11.mask_view().contains(i) && x12.mask_view().contains(i) && x13.mask_view().contains(i) && x14.mask_view().contains(i)),
        (x0, x1, x2, x3, x4, x5, x6, x7, x8, x9, x10, x11, x12, x13, x14).value_view() == (x0.value_view(), x1.value_view(), x2.value_view(), x3.value_view(), x4.value_view(), x5.value_view(), x6.value_view(), x7.value_view(), x8.value_view(), x9.value_view(), x10.value_view(), x11.value_view(), x12.value_view(), x13.value_view(), x14.value_view()),
{
}

/// Getting from a join of 15 members: an index may be asked exactly when
/// every member may be asked for it, and `get` hands out, and leaves behind,
/// what each member's `get` does.
pub proof fn law_join15_get<A: Join, B: Join, C: Join, D: Join, E: Join, F: Join, G: Join, H: Join, I: Join, J: Join, K: Join, L: Join, M: Join, N: Join, O: Join>(v: (A::Value, B::Value, C::Value, D::Value, E::Value, F::Value, G::Value, H::Value, I::Value, J::Value, K::Value, L::Value, M::Value, N::Value, O::Value), i: Index)
    ensures
        <(A, B, C, D, E, F, G, H, I, J, K, L, M, N, O) as Join>::holds(v, i) <==> (A::holds(v.0, i) && B::holds(v.1, i) && C::holds(v.2, i) && D::holds(v.3, i) && E::holds(v.4, i) && F::holds(v.5, i) && G::holds(v.6, i) && H::holds(v.7, i) && I::holds(v.8, i) && J::holds(v.9, i) && K::holds(v.10, i) && L::holds(v.11, i) && M::holds(v.12, i) && N::holds(v.13, i) && O::holds(v.14, i)),
        <(A, B, C, D, E, F, G, H, I, J, K, L, M, N, O) as Join>::get_spec(v, i) == (A::get_spec(v.0, i), B::get_spec(v.1, i), C::get_spec(v.2, i), D::get_spec(v.3, i), E::get_spec(v.4, i), F::get_spec(v.5, i), G::get_spec(v.6, i), H::get_spec(v.7, i), I::get_spec(v.8, i), J::get_spec(v.9, i), K::get_spec(v.10, i), L::get_spec(v.11, i), M::get_spec(v.12, i), N::get_spec(v.13, i), O::get_spec(v.14, i)),
        <(A, B, C, D, E, F, G, H, I, J, K, L, M, N, O) as Join>::value_after_get(v, i) == (A::value_after_get(v.0, i), B::value_after_get(v.1, i), C::value_after_get(v.2, i), D::value_after_get(v.3, i), E::value_after_get(v.4, i), F::value_after_get(v.5, i), G::value_after_get(v.6, i), H::value_after_get(v.7, i), I::value_after_get(v.8, i), J::value_after_get(v.9, i), K::value_after_get(v.10, i), L::value_after_get(v.11, i), M::value_after_get(v.12, i), N::value_after_get(v.13, i), O::value_after_get(v.14, i)),
{
}

/// Cloning the mask of 15 members: an index is in the cloned mask exactly
/// when every member's cloned mask holds it.
pub proof fn law_mask_clone15<A: MaskClone, B: MaskClone, C: MaskClone, D: MaskClone, E: MaskClone, F: MaskClone, G: MaskClone, H: MaskClone, I: MaskClone, J: MaskClone, K: MaskClone, L: MaskClone, M: MaskClone, N: MaskClone, O: MaskClone>(x0: A, x1: B, x2: C, x3: D, x4: E, x5: F, x6: G, x7: H, x8: I, x9: J, x10: K, x11: L, x12: M, x13: N, x14: O, i: Index)
    ensures
        (x0, x1, x2, x3, x4, x5, x6, x7, x8, x9, x10, x11, x12, x13, x14).mask_clone_view().contains(i) <==> (x0.mask_clone_view().contains(i) && x1.mask_clone_view().contains(i) && x2.mask_clone_view().contains(i) && x3.mask_clone_view().contains(i) && x4.mask_clone_view().contains(i) && x5.mask_clone_view().contains(i) && x6.mask_clone_view().contains(i) && x7.mask_clone_view().contains(i) && x8.mask_clone_view().contains(i) && x9.mask_clone_view().contains(i) && x10.mask_clone_view().contains(i) && x11.mask_clone_view().contains(i) && x12.mask_clone_view().contains(i) && x13.mask_clone_view().contains(i) && x14.mask_clone_view().contains(i)),
{
}

/// Opening a join of 16 members: an index is in the opened mask exactly
/// when every member holds it, and the opened storages are the members'.
pub proof fn law_join16_open<A: Join, B: Join, C: Join, D: Join, E: Join, F: Join, G: Join, H: Join, I: Join, J: Join, K: Join, L: Join, M: Join, N: Join, O: Join, P: Join>(x0: A, x1: B, x2: C, x3: D, x4: E, x5: F, x6: G, x7: H, x8: I, x9: J, x10: K, x11: L, x12: M, x13: N, x14: O, x15: P, i: Index)
    ensures
        (x0, x1, x2, x3, x4, x5, x6, x7, x8, x9, x10, x11, x12, x13, x14, x15).mask_view().contains(i) <==> (x0.mask_view().contains(i) && x1.mask_view().contains(i) && x2.mask_view().contains(i) && x3.mask_view().contains(i) && x4.mask_view().contains(i) && x5.mask_view().contains(i) && x6.mask_view().contains(i) && x7.mask_view().contains(i) && x8.mask_view().contains(i) && x9.mask_view().contains(i) && x10.mask_view().contains(i) && x11.mask_view().contains(i) && x12.mask_view().contains(i) && x13.mask_view().contains(i) && x14.mask_view().contains(i) && x15.mask_view().contains(i)),
        (x0, x1, x2, x3, x4, x5, x6, x7, x8, x9, x10, x11, x12, x13, x14, x15).value_view() == (x0.value_view(), x1.value_view(), x2.value_view(), x3.value_view(), x4.value_view(), x5.value_view(), x6.value_view(), x7.value_view(), x8.value_view(), x9.value_view(), x10.value_view(), x11.value_view(), x12.value_view(), x13.value_view(), x14.value_view(), x15.value_view()),
{
}

/// Getting from a join of 16 members: an index may be asked exactly when
/// every member may be asked for it, and `get` hands out, and leaves behind,
/// what each member's `get` does.
pub proof fn law_join16_get<A: Join, B: Join, C: Join, D: Join, E: Join, F: Join, G: Join, H: Join, I: Join, J: Join, K: Join, L: Join, M: Join, N: Join, O: Join, P: Join>(v: (A::Value, B::Value, C::Value, D::Value, E::Value, F::Value, G::Value, H::Value, I::Value, J::Value, K::Value, L::Value, M::Value, N::Value, O::Value, P::Value), i: Index)
    ensures
        <(A, B, C, D, E, F, G, H, I, J, K, L, M, N, O, P) as Join>::holds(v, i) <==> (A::holds(v.0, i) && B::holds(v.1, i) && C::holds(v.2, i) && D::holds(v.3, i) && E::holds(v.4, i) && F::holds(v.5, i) && G::holds(v.6, i) && H::holds(v.7, i) && I::holds(v.8, i) && J::holds(v.9, i) && K::holds(v.10, i) && L::holds(v.11, i) && M::holds(v.12, i) && N::holds(v.13, i) && O::holds(v.14, i) && P::holds(v.15, i)),
        <(A, B, C, D, E, F, G, H, I, J, K, L, M, N, O, P) as Join>::get_spec(v, i) == (A::get_spec(v.0, i), B::get_spec(v.1, i), C::get_spec(v.2, i), D::get_spec(v.3, i), E::get_spec(v.4, i), F::get_spec(v.5, i), G::get_spec(v.6, i), H::get_spec(v.7, i), I::get_spec(v.8, i), J::get_spec(v.9, i), K::get_spec(v.10, i), L::get_spec(v.11, i), M::get_spec(v.12, i), N::get_spec(v.13, i), O::get_spec(v.14, i), P::get_spec(v.15, i)),
        <(A, B, C, D, E, F, G, H, I, J, K, L, M, N, O, P) as Join>::value_after_get(v, i) == (A::value_after_get(v.0, i), B::value_after_get(v.1, i), C::value_after_get(v.2, i), D::value_after_get(v.3, i), E::value_after_get(v.4, i), F::value_after_get(v.5, i), G::value_after_get(v.6, i), H::value_after_get(v.7, i), I::value_after_get(v.8, i), J::value_after_get(v.9, i), K::value_after_get(v.10, i), L::value_after_get(v.11, i), M::value_after_get(v.12, i), N::value_after_get(v.13, i), O::value_after_get(v.14, i), P::value_after_get(v.15, i)),
{
}

/// Cloning the mask of 16 members: an index is in the cloned mask exactly
/// when every member's cloned mask holds it.
pub proof fn law_mask_clone16<A: MaskClone, B: MaskClone, C: MaskClone, D: MaskClone, E: MaskClone, F: MaskClone, G: MaskClone, H: MaskClone, I: MaskClone, J: MaskClone, K: MaskClone, L: MaskClone, M: MaskClone, N: MaskClone, O: MaskClone, P: MaskClone>(x0: A, x1: B, x2: C, x3: D, x4: E, x5: F, x6: G, x7: H, x8: I, x9: J, x10: K, x11: L, x12: M, x13: N, x14: O, x15: P, i: Index)
    ensures
        (x0, x1, x2, x3, x4, x5, x6, x7, x8, x9, x10, x11, x12, x13, x14, x15).mask_clone_view().contains(i) <==> (x0.mask_clone_view().contains(i) && x1.mask_clone_view().contains(i) && x2.mask_clone_view().contains(i) && x3.mask_clone_view().contains(i) && x4.mask_clone_view().contains(i) && x5.mask_clone_view().contains(i) && x6.mask_clone_view().contains(i) && x7.mask_clone_view().contains(i) && x8.mask_clone_view().contains(i) && x9.mask_clone_view().contains(i) && x10.mask_clone_view().contains(i) && x11.mask_clone_view().contains(i) && x12.mask_clone_view().contains(i) && x13.mask_clone_view().contains(i) && x14.mask_clone_view().contains(i) && x15.mask_clone_view().contains(i)),
{
}

} // verus!

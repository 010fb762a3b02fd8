use hibitset::{BitSet, BitSetLike};
use specs::bit_and::BitAnd;
use specs::bitset::{mask_add, mask_contains, mask_copy, mask_new, Index};
use specs::join::{CheckJoin, Join, JoinIter, JoinIterate, MaskClone};

/// A storage of `u32` components, kept at the indices of its mask.
struct Storage {
    mask: BitSet,
    values: Vec<u32>,
}

impl Storage {
    fn new(entries: &[(Index, u32)]) -> Storage {
        let mut mask = BitSet::new();
        let mut values = Vec::new();
        for &(i, v) in entries {
            mask.add(i);
            if values.len() <= i as usize {
                values.resize(i as usize + 1, 0);
            }
            values[i as usize] = v;
        }
        Storage { mask, values }
    }
}

impl<'a> Join for &'a Storage {
    type Type = u32;
    type Value = &'a Storage;

    fn mask_view(&self) -> vstd::set::Set<Index> {
        unreachable!()
    }

    fn value_view(&self) -> &'a Storage {
        unreachable!()
    }

    fn holds(_value: &'a Storage, _id: Index) -> bool {
        unreachable!()
    }

    fn get_spec(_value: &'a Storage, _id: Index) -> u32 {
        unreachable!()
    }

    fn value_after_get(_value: &'a Storage, _id: Index) -> &'a Storage {
        unreachable!()
    }

    fn open(self) -> (BitSet, &'a Storage) {
        (self.mask.clone(), self)
    }

    fn get(value: &mut &'a Storage, id: Index) -> u32 {
        value.values[id as usize]
    }
}

impl<'a> MaskClone for &'a Storage {
    fn mask_clone_view(&self) -> vstd::set::Set<Index> {
        unreachable!()
    }

    fn mask_clone(&self) -> BitSet {
        self.mask.clone()
    }
}

fn collect<J: Join>(mut it: JoinIter<J>) -> Vec<J::Type> {
    let mut out = Vec::new();
    while let Some(x) = it.next() {
        out.push(x);
    }
    out
}

fn bits(ids: &[Index]) -> BitSet {
    let mut s = BitSet::new();
    for &i in ids {
        s.add(i);
    }
    s
}

fn indices(s: BitSet) -> Vec<Index> {
    s.iter().collect()
}

#[test]
fn pair_join_visits_the_intersection_in_order() {
    let a = Storage::new(&[(1, 10), (3, 30), (5, 50), (40, 400)]);
    let b = Storage::new(&[(5, 5), (3, 3), (2, 2), (40, 4)]);
    let got = collect((&a, &b).iter());
    assert_eq!(got, vec![(30, 3), (50, 5), (400, 4)]);
}

#[test]
fn single_member_join_visits_its_mask() {
    let a = Storage::new(&[(7, 70), (0, 1), (63, 630)]);
    let got = collect((&a,).iter());
    assert_eq!(got, vec![(1,), (70,), (630,)]);
}

#[test]
fn triple_join_and_new_agree() {
    let a = Storage::new(&[(1, 1), (2, 2), (3, 3), (4, 4)]);
    let b = Storage::new(&[(2, 20), (3, 30), (4, 40)]);
    let c = Storage::new(&[(4, 400), (3, 300), (9, 900)]);
    let got = collect((&a, &b, &c).iter());
    assert_eq!(got, vec![(3, 30, 300), (4, 40, 400)]);
    let again = collect(JoinIter::new((&a, &b, &c)));
    assert_eq!(again, got);
}

#[test]
fn nested_join_matches_flat_join() {
    let a = Storage::new(&[(1, 1), (2, 2), (6, 6)]);
    let b = Storage::new(&[(2, 20), (6, 60), (7, 70)]);
    let c = Storage::new(&[(6, 600), (2, 200)]);
    let nested = collect(((&a, &b), &c).iter());
    assert_eq!(nested, vec![((2, 20), 200), ((6, 60), 600)]);
}

#[test]
fn disjoint_join_is_empty_and_stays_empty() {
    let a = Storage::new(&[(1, 1)]);
    let b = Storage::new(&[(2, 2)]);
    let mut it = (&a, &b).iter();
    assert_eq!(it.next(), None);
    assert_eq!(it.next(), None);
}

#[test]
fn open_gives_the_intersected_mask() {
    let a = Storage::new(&[(1, 1), (2, 2), (9, 9)]);
    let b = Storage::new(&[(9, 90), (2, 20), (3, 30)]);
    let (mask, _values) = (&a, &b).open();
    assert_eq!(indices(mask), vec![2, 9]);
}

#[test]
fn tuple_get_hands_out_each_members_value() {
    let a = Storage::new(&[(4, 44)]);
    let b = Storage::new(&[(4, 8)]);
    let (_mask, mut values) = (&a, &b).open();
    assert_eq!(<(&Storage, &Storage) as Join>::get(&mut values, 4), (44, 8));
}

#[test]
fn check_join_yields_unit_at_each_index() {
    let a = Storage::new(&[(3, 3), (8, 8), (12, 12)]);
    let check = (&a).check();
    let got = collect(check.iter());
    assert_eq!(got, vec![(), (), ()]);
}

#[test]
fn check_of_a_tuple_holds_the_intersection() {
    let a = Storage::new(&[(3, 3), (8, 8), (12, 12)]);
    let b = Storage::new(&[(8, 80), (12, 120), (13, 130)]);
    let check = (&a, &b).check();
    let (mask, ()) = check.open();
    assert_eq!(indices(mask), vec![8, 12]);
}

#[test]
fn check_join_by_reference_keeps_its_mask() {
    let a = Storage::new(&[(3, 3), (5, 5)]);
    let b = Storage::new(&[(5, 50), (6, 60)]);
    let check: CheckJoin = (&a).check();
    let first = collect((&check).iter());
    let second = collect((&b, &check).iter());
    assert_eq!(first, vec![(), ()]);
    assert_eq!(second, vec![(50, ())]);
    let (mask, ()) = (&check).open();
    assert_eq!(indices(mask), vec![3, 5]);
}

#[test]
fn mask_clone_of_tuple_intersects() {
    let a = Storage::new(&[(1, 1), (2, 2), (3, 3)]);
    let b = Storage::new(&[(2, 2), (3, 3), (4, 4)]);
    let c = Storage::new(&[(3, 3), (4, 4), (2, 2)]);
    assert_eq!(indices((&a, &b, &c).mask_clone()), vec![2, 3]);
    assert_eq!(indices((&a,).mask_clone()), vec![1, 2, 3]);
}

#[test]
fn bit_and_of_tuples() {
    assert_eq!(indices(bits(&[1, 2, 3]).and()), vec![1, 2, 3]);
    assert_eq!(indices((bits(&[4, 70000]),).and()), vec![4, 70000]);
    assert_eq!(indices((bits(&[1, 2, 70000]), bits(&[2, 70000, 9])).and()), vec![2, 70000]);
    assert_eq!(
        indices((bits(&[1, 2, 3, 4]), bits(&[2, 3, 4]), bits(&[3, 4, 5])).and()),
        vec![3, 4]
    );
    assert_eq!(indices((bits(&[1]), bits(&[2]), bits(&[1, 2]), bits(&[1, 2]), bits(&[1, 2])).and()), Vec::<Index>::new());
}

#[test]
fn bit_and_of_sixteen() {
    let all = || bits(&[0, 5, 31, 64, 1000]);
    let t = (
        all(), all(), all(), all(), all(), all(), all(), all(),
        all(), all(), all(), all(), all(), all(), all(), bits(&[5, 64, 999]),
    );
    assert_eq!(indices(t.and()), vec![5, 64]);
}

#[test]
fn join_of_sixteen() {
    let s = Storage::new(&[(2, 1), (9, 2), (33, 3)]);
    let t = Storage::new(&[(9, 7), (33, 8)]);
    let j = (&s, &s, &s, &s, &s, &s, &s, &s, &s, &s, &s, &s, &s, &s, &s, &t);
    let got = collect(j.iter());
    assert_eq!(got.len(), 2);
    assert_eq!((got[0].0, got[0].7, got[0].14, got[0].15), (2, 2, 2, 7));
    assert_eq!((got[1].0, got[1].8, got[1].14, got[1].15), (3, 3, 3, 8));
}

#[test]
fn join_across_top_layer_regions() {
    let a = Storage::new(&[(0, 1), (262144, 2)]);
    let b = Storage::new(&[(0, 10)]);
    assert_eq!(collect((&a, &b).iter()), vec![(1, 10)]);
    assert_eq!(indices((bits(&[0, 262144]), bits(&[0])).and()), vec![0]);
    assert_eq!(indices((bits(&[0]), bits(&[0, 262144])).and()), vec![0]);
}

#[test]
fn join_of_far_apart_indices() {
    let a = Storage::new(&[(5, 1), (262144, 2), (1_000_000, 3), (1_048_575, 4)]);
    let b = Storage::new(&[(262144, 20), (1_048_575, 40), (7, 70)]);
    assert_eq!(collect((&a, &b).iter()), vec![(2, 20), (4, 40)]);
    assert_eq!(
        indices((bits(&[1_048_575, 3, 262144]), bits(&[262144, 1_048_575])).and()),
        vec![262144, 1_048_575]
    );
}

#[test]
fn intersection_of_bit_sets() {
    let r = specs::bitset::bitset_intersection(bits(&[0, 64, 4096, 262144, 900_000]), &bits(&[64, 900_000, 3]));
    assert_eq!(indices(r), vec![64, 900_000]);
    let e = specs::bitset::bitset_intersection(bits(&[]), &bits(&[1, 2]));
    assert_eq!(indices(e), Vec::<Index>::new());
}

#[test]
fn join_iterator_counts_its_visits() {
    let a = Storage::new(&[(1, 1), (2, 2), (3, 3)]);
    let b = Storage::new(&[(2, 2), (3, 3), (4, 4)]);
    let mut it = (&a, &b).iter();
    assert!(it.next().is_some());
    assert!(it.next().is_some());
    assert!(it.next().is_none());
}

#[test]
fn masks_built_through_the_library() {
    let mut m = mask_new();
    assert_eq!(mask_add(&mut m, 5), Some(false));
    assert_eq!(mask_add(&mut m, 5), Some(true));
    assert_eq!(mask_add(&mut m, 262144), Some(false));
    assert!(mask_contains(&m, 5));
    assert!(!mask_contains(&m, 6));
    let c = mask_copy(&m);
    assert_eq!(indices(c), vec![5, 262144]);
    let limit: u32 = if usize::BITS == 64 { 0x100_0000 } else { 0x10_0000 };
    assert_eq!(mask_add(&mut m, limit), None);
    assert_eq!(mask_add(&mut m, limit - 1), Some(false));
    assert!(!mask_contains(&m, limit));
    assert_eq!(indices(m), vec![5, 262144, limit - 1]);
}

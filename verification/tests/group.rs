use specs::group::{ComponentGroup, DeconstructedGroup, Split};

#[test]
fn split_of_a_pair_goes_on() {
    assert!(<(u8, (u16,)) as Split>::next());
    assert!(<(u8, (u16, ())) as Split>::next());
}

#[test]
fn split_of_a_single_or_unit_stops() {
    assert!(!<(u8,) as Split>::next());
    assert!(!<() as Split>::next());
}

/// A group as the derive would write it: two local components and one subgroup
/// with one component of its own.
struct Example;

impl ComponentGroup for Example {
    fn local_names() -> vstd::seq::Seq<vstd::seq::Seq<char>> {
        unreachable!()
    }
    fn component_names() -> vstd::seq::Seq<vstd::seq::Seq<char>> {
        unreachable!()
    }
    fn subgroup_names() -> vstd::seq::Seq<vstd::seq::Seq<char>> {
        unreachable!()
    }
    fn local_components() -> Vec<&'static str> {
        vec!["position", "velocity"]
    }
    fn components() -> Vec<&'static str> {
        vec!["position", "velocity", "health"]
    }
    fn subgroups() -> Vec<&'static str> {
        vec!["stats"]
    }
}

impl DeconstructedGroup for Example {
    type Locals = (u8, (u16,));
    type Subgroups = (u32,);
    fn locals() -> usize {
        2
    }
    fn subgroups() -> usize {
        1
    }
}

#[test]
fn group_lists_are_consistent() {
    let locals = Example::local_components();
    let all = Example::components();
    assert_eq!(<Example as DeconstructedGroup>::locals(), locals.len());
    for l in &locals {
        assert!(all.contains(l));
    }
    assert_eq!(<Example as DeconstructedGroup>::subgroups(), <Example as ComponentGroup>::subgroups().len());
    assert!(<<Example as DeconstructedGroup>::Locals as Split>::next());
    assert!(!<<Example as DeconstructedGroup>::Subgroups as Split>::next());
}

//! Groups of components, and splitting tuples by recursive associated types.
use vstd::prelude::*;

verus! {

/// The names that a list of static strings holds.
pub open spec fn names_of(v: Seq<&'static str>) -> Seq<Seq<char>> {
    v.map_values(|s: &'static str| s@)
}

/// Group of components. Can be subgrouped into other component groups.
pub trait ComponentGroup {
    /// The names of the components defined in this group, not a subgroup.
    spec fn local_names() -> Seq<Seq<char>>;

    /// The names of the components defined in this group along with subgroups.
    spec fn component_names() -> Seq<Seq<char>>;

    /// The names of the subgroups included in this group.
    spec fn subgroup_names() -> Seq<Seq<char>>;

    /// Components defined in this group, not a subgroup.
    fn local_components() -> (r: Vec<&'static str>)
        ensures
            names_of(r@) == Self::local_names(),
    ;

    /// Components defined in this group along with subgroups.
    fn components() -> (r: Vec<&'static str>)
        ensures
            names_of(r@) == Self::component_names(),
            forall|n: Seq<char>| #[trigger] Self::local_names().contains(n) ==> names_of(r@).contains(n),
    ;

    /// Subgroups included in this group.
    fn subgroups() -> (r: Vec<&'static str>)
        ensures
            names_of(r@) == Self::subgroup_names(),
    ;
}

/// Splits a tuple with recursive associated types.
pub trait Split {
    /// The type split off from the tuple.
    type This;
    /// The rest of the tuple aside from the split off associated type.
    /// (Every impl here names a `Split` type; the bound itself is not written,
    /// as the impl for `()` names `()` again.)
    type Next;

    /// Whether another split is possible.
    spec fn has_next() -> bool;

    /// Is there another split possible.
    fn next() -> (r: bool)
        ensures
            r == Self::has_next(),
    ;
}

/// Deconstructs the group.
pub trait DeconstructedGroup: ComponentGroup {
    /// Locals of the group.
    type Locals: Split;
    /// Subgroups of the group.
    type Subgroups: Split;

    /// Amount of local components there are in this group.
    fn locals() -> (r: usize)
        ensures
            r == Self::local_names().len(),
    ;

    /// Amount of subgroups there are in this group.
    fn subgroups() -> usize;
}

impl<A, B: Split> Split for (A, B) {
    type This = A;
    type Next = B;

    open spec fn has_next() -> bool {
        true
    }

    fn next() -> (r: bool) {
        true
    }
}

impl<A> Split for (A,) {
    type This = A;
    type Next = ();

    open spec fn has_next() -> bool {
        false
    }

    fn next() -> (r: bool) {
        false
    }
}

impl Split for () {
    type This = ();
    type Next = ();

    open spec fn has_next() -> bool {
        false
    }

    fn next() -> (r: bool) {
        false
    }
}

/// A pair can be split again; a one-element tuple and the unit cannot.
pub proof fn law_split_next<A, B: Split>()
    ensures
        <(A, B) as Split>::has_next(),
        !<(A,) as Split>::has_next(),
        !<() as Split>::has_next(),
{
}

} // verus!

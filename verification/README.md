# specs (joins and component groups, verified)

A Verus library for joining component storages by their bit set masks.

- `bitset`: `hibitset::BitSet` and its iterator, seen as sets of indices;
  public constructors for consistent masks, and the verified intersection of
  two bit sets.
- `bit_and`: `BitAnd`, intersecting a bit set or a tuple of up to sixteen.
- `join`: `Join`, `JoinIterate`, `JoinIter`, `MaskClone` and `CheckJoin`.
- `join_tuples`: `Join` and `MaskClone` for tuples of up to sixteen joins.
- `group`: `ComponentGroup`, `DeconstructedGroup` and `Split`.

The mask of a joined tuple is the intersection of its members' masks, and a
join iterator visits the indices of that mask in increasing order, each once,
handing out the members' values at each. The crate's own code is proved by
Verus; the facts about `hibitset` (what `new`, `add`, `contains`, `clone`,
`iter` and the iterator's `next` do) are trusted contracts, stated in
`src/bitset.rs`.

## Where it differs from a plain Rust version

- Every mask is a concrete `hibitset::BitSet`: verified code cannot be bound
  by `hibitset::BitSetLike`, an outside trait, and Verus refuses to declare
  `hibitset::BitSetAnd`. So `Join::Mask`, `MaskClone::MaskClone`,
  `BitAnd::Value` and the mask parameter of `CheckJoin` are gone, and an
  intersection is computed into a new `BitSet` (`bitset_intersection`)
  instead of being kept lazily as a `BitSetAnd`. Opening a `CheckJoin` by
  reference copies its mask instead of borrowing it.
- `iter` lives in `JoinIterate`, implemented for every `Join`: as a default
  method of `Join` it makes Verus report a cyclic definition.
- `JoinIter` has an inherent `next` method rather than an `Iterator` impl.
- `Join::get` is a safe function whose `requires` is the old `unsafe` contract:
  the storages hold the index.
- `Split::Next` carries no `Split` bound: with it, Verus reports a cycle on the
  impl for `()`.
- `ComponentGroup::register` and the serde-based `SerializeGroup` are left
  out: they work on the world of entities, which is not part of this crate.
- Implementing `Join`, `MaskClone` or `ComponentGroup` outside Verus means
  writing their spec functions too (their bodies are never run).

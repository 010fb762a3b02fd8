//! Joins over component storages by their bit set masks, and component groups.
use vstd::prelude::*;

pub mod bitset;
pub mod bit_and;
pub mod join;
pub mod join_tuples;
pub mod group;

pub use bitset::Index;
pub use bit_and::BitAnd;
pub use join::{CheckJoin, Join, JoinIter, JoinIterate, MaskClone};
pub use group::{ComponentGroup, DeconstructedGroup, Split};

verus! {

} // verus!

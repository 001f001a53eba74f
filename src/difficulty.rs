use vstd::prelude::*;

verus! {

/// How hard a recipe is to make, from `Easy` up to `Expert`.
///
/// The levels are ordered as declared, so recipes can be sorted or compared
/// by difficulty.
#[derive(Clone, Copy, Debug, PartialEq, Eq, Structural, PartialOrd, Ord, Hash)]
pub enum Difficulty {
    Easy,
    Medium,
    Hard,
    Expert,
}

} // verus!

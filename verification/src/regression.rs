use vstd::prelude::*;

use crate::session::Bound;

verus! {

/// A revision that the search can rank: comparable, hashable and printable.
pub trait Revision: core::fmt::Debug + Eq + core::hash::Hash + PartialOrd {

}

/// Which pass rate a sample taken at position `sample_revision` follows if
/// the regression came in at position `revision`: the old one when the
/// sample comes before it, the new one otherwise.
pub fn sample_distribution(sample_revision: usize, revision: usize) -> (side: Bound)
    ensures
        side == (if sample_revision < revision {
            Bound::Old
        } else {
            Bound::New
        }),
{
    if sample_revision < revision {
        Bound::Old
    } else {
        Bound::New
    }
}

} // verus!

use vstd::prelude::*;

use crate::regression::Revision;
use crate::session::ValidationError;
use crate::state::{PassRate, State};

verus! {

/// A git object id: its twenty bytes read big-endian, the first sixteen in
/// `high` and the last four in `low`, so that the derived order is the order
/// of the bytes.
#[derive(Clone, Copy, Debug, PartialEq, Eq, Structural, Hash, PartialOrd, Ord)]
pub struct GitRevision {
    pub high: u128,
    pub low: u32,
}

impl Revision for GitRevision {

}

/// Where a recorded sample stands among the candidates: the first position
/// holding its object id, or a refusal naming the sample's revision when no
/// candidate has that id.
pub fn sample_index(candidates: &Vec<GitRevision>, oid: GitRevision, revision: &String) -> (res:
    Result<usize, ValidationError>)
    ensures
        match res {
            Ok(i) => {
                &&& i < candidates@.len()
                &&& candidates@[i as int] == oid
                &&& forall|j: int| 0 <= j < i ==> candidates@[j] != oid
            },
            Err(e) => {
                &&& e == ValidationError::SampleNotFound(*revision)
                &&& forall|j: int| 0 <= j < candidates@.len() ==> candidates@[j] != oid
            },
        },
{
    let mut i: usize = 0;
    while i < candidates.len()
        invariant
            i <= candidates@.len(),
            forall|j: int| 0 <= j < i ==> candidates@[j] != oid,
        decreases candidates@.len() - i,
    {
        if candidates[i] == oid {
            return Ok(i);
        }
        i = i + 1;
    }
    Err(ValidationError::SampleNotFound(revision.clone()))
}

/// The pass rates of the test before and after the regression, as the
/// session holds them. Both bounds must have one: marking a bound sets it.
pub fn build_distributions(state: &State) -> (rates: (PassRate, PassRate))
    requires
        state.priors.old_pass_rate is Some,
        state.priors.new_pass_rate is Some,
    ensures
        rates.0 == state.priors.old_pass_rate->0,
        rates.1 == state.priors.new_pass_rate->0,
{
    (state.priors.old_pass_rate.unwrap(), state.priors.new_pass_rate.unwrap())
}

} // verus!

use vstd::prelude::*;

use crate::session::{start_mark, start_mark_outcome, Bound, MarkAction};
use crate::state::State;

verus! {

/// Marks `sha`, the revision the user named, as the session's post-regression
/// reference, and decides what comes next: a refusal, the report with the
/// prompt for the old bound, or the question whether `sha` descends from the
/// old revision.
pub fn run(state: &mut State, sha: String) -> (action: MarkAction)
    ensures
        start_mark_outcome(*old(state), sha, Bound::New, action, *final(state)),
        old(state).well_formed() ==> final(state).well_formed(),
{
    start_mark(state, sha, Bound::New)
}

} // verus!

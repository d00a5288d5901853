//! Turning a reconciled difference set into the list of mutations to apply.

use vstd::prelude::*;
use crate::userset::UserSet;

verus! {

/// The relationship change a mutation performs.
#[derive(Clone, Copy, Debug, PartialEq, Eq, Structural)]
pub enum Action {
    Follow,
    Unfollow,
}

/// One username paired with the action intended for it.
#[derive(Debug)]
pub struct MutationTarget {
    pub user: String,
    pub action: Action,
}

/// Pair every user of a reconciled difference set with the action the run
/// will apply, keeping the set's order; the caller works through the list
/// one target at a time.
pub fn plan_targets(targets: &UserSet, action: Action) -> (r: Vec<MutationTarget>)
    ensures
        r@.len() == targets.seq().len(),
        forall|i: int|
            0 <= i < r@.len() ==> (#[trigger] r@[i]).user@ == targets.seq()[i] && r@[i].action
                == action,
{
    let names = targets.as_vec();
    let n = names.len();
    let mut r: Vec<MutationTarget> = Vec::new();
    let mut i: usize = 0;
    while i < n
        invariant
            n == names.len(),
            names.deep_view() == targets.seq(),
            i <= n,
            r@.len() == i,
            forall|k: int|
                0 <= k < i ==> (#[trigger] r@[k]).user@ == targets.seq()[k] && r@[k].action
                    == action,
        decreases n - i,
    {
        let user = names[i].clone();
        proof {
            assert(user@ == names.deep_view()[i as int]);
        }
        r.push(MutationTarget { user, action });
        i += 1;
    }
    r
}

} // verus!

//! Set reconciliation: which users to follow back and which to unfollow.

use vstd::prelude::*;
use crate::userset::UserSet;

verus! {

/// The followers that the account does not follow yet: these get a follow
/// mutation.
pub fn users_to_follow_back(followers: &UserSet, following: &UserSet) -> (r: UserSet)
    requires
        followers.wf(),
    ensures
        r.wf(),
        r@ == followers@.difference(following@),
{
    followers.difference(following)
}

/// The followed users that do not follow the account back: these get an
/// unfollow mutation.
pub fn users_to_unfollow(following: &UserSet, followers: &UserSet) -> (r: UserSet)
    requires
        following.wf(),
    ensures
        r.wf(),
        r@ == following@.difference(followers@),
{
    following.difference(followers)
}

/// Reconciliation carves the union into three disjoint parts: the two
/// difference sets together with the common part give back exactly the union
/// of the inputs, and a difference set never overlaps the set it was taken
/// against.
pub proof fn lemma_reconcile_partition(a: Set<Seq<char>>, b: Set<Seq<char>>)
    ensures
        a.difference(b) + a.intersect(b) + b.difference(a) == a + b,
        a.difference(b).intersect(b) == Set::<Seq<char>>::empty(),
{
    assert(a.difference(b) + a.intersect(b) + b.difference(a) =~= a + b);
    assert(a.difference(b).intersect(b) =~= Set::<Seq<char>>::empty());
}

/// Reconciliation is idempotent: taking the difference against the same
/// baseline a second time changes nothing, so a repeated run over unchanged
/// inputs computes the same target set.
pub proof fn lemma_reconcile_idempotent(a: Set<Seq<char>>, b: Set<Seq<char>>)
    ensures
        a.difference(b).difference(b) == a.difference(b),
{
    assert(a.difference(b).difference(b) =~= a.difference(b));
}

} // verus!

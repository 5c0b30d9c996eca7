use vstd::prelude::*;
use crate::vote::{PointVote, combine, vote_zero, fold_spec};
use crate::contract::{ContractPoint, apply, apply_each};

verus! {

broadcast use vstd::seq_lib::group_to_multiset_ensures;

/// Combining votes does not depend on grouping: `(a + b) + c == a + (b + c)`.
pub proof fn lemma_combine_associative(a: PointVote, b: PointVote, c: PointVote)
    ensures
        combine(combine(a@, b@), c@) == combine(a@, combine(b@, c@)),
{
}

/// Combining votes does not depend on order: `a + b == b + a`.
pub proof fn lemma_combine_commutative(a: PointVote, b: PointVote)
    ensures
        combine(a@, b@) == combine(b@, a@),
{
}

/// The zero vote is an identity for combination, on either side.
pub proof fn lemma_combine_identity(v: PointVote)
    ensures
        combine(v@, vote_zero()) == v@,
        combine(vote_zero(), v@) == v@,
{
}

/// Folding a sequence equals folding it without its `i`-th vote, then
/// combining that vote in last.
pub proof fn lemma_fold_remove(votes: Seq<PointVote>, i: int)
    requires
        0 <= i < votes.len(),
    ensures
        fold_spec(votes) == combine(fold_spec(votes.remove(i)), votes[i]@),
    decreases votes.len(),
{
    if i == votes.len() - 1 {
        assert(votes.remove(i) =~= votes.drop_last());
    } else {
        let rest = votes.drop_last();
        lemma_fold_remove(rest, i);
        assert(rest.remove(i) =~= votes.remove(i).drop_last());
        assert(votes.remove(i).last() == votes.last());
    }
}

/// Folding a list of votes gives the same aggregate for every permutation of it.
pub proof fn lemma_fold_permutation(v1: Seq<PointVote>, v2: Seq<PointVote>)
    requires
        v1.to_multiset() == v2.to_multiset(),
    ensures
        fold_spec(v1) == fold_spec(v2),
    decreases v1.len(),
{
    if v1.len() == 0 {
        assert(v2.to_multiset().len() == 0);
    } else {
        let x = v1.last();
        let n = v1.len() - 1;
        assert(v1.to_multiset().count(x) > 0);
        assert(v2.contains(x));
        let j = choose|j: int| 0 <= j < v2.len() && v2[j] == x;
        assert(v1.remove(n) =~= v1.drop_last());
        assert(v1.drop_last().to_multiset() == v2.remove(j).to_multiset());
        lemma_fold_permutation(v1.drop_last(), v2.remove(j));
        lemma_fold_remove(v2, j);
    }
}

/// Absorbing the votes one at a time, first to last, gives the same state as
/// absorbing their fold once.
pub proof fn lemma_apply_each_is_apply_fold(s: ContractPoint, votes: Seq<PointVote>)
    ensures
        apply_each(s@, votes) == apply(s@, fold_spec(votes)),
    decreases votes.len(),
{
    if votes.len() > 0 {
        lemma_apply_each_is_apply_fold(s, votes.drop_last());
    }
}

/// Absorbing the votes one at a time gives the same state in every order.
pub proof fn lemma_apply_each_permutation(s: ContractPoint, v1: Seq<PointVote>, v2: Seq<PointVote>)
    requires
        v1.to_multiset() == v2.to_multiset(),
    ensures
        apply_each(s@, v1) == apply_each(s@, v2),
        apply_each(s@, v1) == apply(s@, fold_spec(v2)),
{
    lemma_fold_permutation(v1, v2);
    lemma_apply_each_is_apply_fold(s, v1);
    lemma_apply_each_is_apply_fold(s, v2);
}

} // verus!

use vstd::prelude::*;
use crate::vote::{PointVote, VoteModel};
use crate::contract::{ContractPoint, apply, point_fits};

verus! {

/// The vote that a committed journal holds: its first three words are `x`,
/// `y` and `weight`, each coordinate a non-negative `i32` written as a `u32`.
/// Words after the third are ignored.
pub open spec fn journal_vote(journal: Seq<u32>) -> VoteModel {
    VoteModel { x: journal[0] as int, y: journal[1] as int, weight: journal[2] as int }
}

/// The journal holds a vote that `vote_from_journal` accepts.
pub open spec fn journal_readable(journal: Seq<u32>) -> bool {
    &&& journal.len() >= 3
    &&& journal[0] <= i32::MAX
    &&& journal[1] <= i32::MAX
}

/// Reads the aggregate vote out of a committed journal, or `None` when the
/// journal is shorter than three words or a coordinate word exceeds `i32::MAX`.
pub fn vote_from_journal(journal: &Vec<u32>) -> (r: Option<PointVote>)
    ensures
        r is Some <==> journal_readable(journal@),
        r is Some ==> r->0@ == journal_vote(journal@),
{
    if journal.len() < 3 {
        return None;
    }
    let wx = journal[0];
    let wy = journal[1];
    if wx > i32::MAX as u32 || wy > i32::MAX as u32 {
        return None;
    }
    Some(PointVote::new(wx as i32, wy as i32, journal[2]))
}

/// Settles one committed journal: the contract state after absorbing the vote
/// it holds. `None` when the journal cannot be read or the new state overflows.
pub fn settle_vote(contract: &ContractPoint, journal: &Vec<u32>) -> (r: Option<ContractPoint>)
    ensures
        r is Some <==> journal_readable(journal@) && point_fits(
            apply(contract@, journal_vote(journal@)),
        ),
        r is Some ==> r->0@ == apply(contract@, journal_vote(journal@)),
{
    match vote_from_journal(journal) {
        Some(vote) => contract.checked_add(vote),
        None => None,
    }
}

} // verus!

//! Accumulator algebra for write-only contract state: proposed increments
//! (`PointVote`) combine associatively and commutatively, and the contract
//! state (`ContractPoint`) absorbs them one at a time or as one aggregate with
//! the same result.
pub mod vote;
pub mod contract;
pub mod settle;
pub mod laws;

pub use vote::{PointVote, fold_votes};
pub use contract::ContractPoint;
pub use settle::{vote_from_journal, settle_vote};

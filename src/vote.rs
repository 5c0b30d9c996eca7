use vstd::prelude::*;

verus! {

/// The mathematical value of a vote: a weighted 2-D point over unbounded integers.
pub struct VoteModel {
    pub x: int,
    pub y: int,
    pub weight: int,
}

/// The identity of vote combination.
pub open spec fn vote_zero() -> VoteModel {
    VoteModel { x: 0, y: 0, weight: 0 }
}

/// Field-wise sum of two votes.
pub open spec fn combine(a: VoteModel, b: VoteModel) -> VoteModel {
    VoteModel { x: a.x + b.x, y: a.y + b.y, weight: a.weight + b.weight }
}

/// The vote can be stored in a `PointVote`: `x` and `y` in `i32`, `weight` in `u32`.
pub open spec fn vote_fits(v: VoteModel) -> bool {
    &&& i32::MIN <= v.x <= i32::MAX
    &&& i32::MIN <= v.y <= i32::MAX
    &&& 0 <= v.weight <= u32::MAX
}

/// A proposed increment to the contract state. Immutable once built.
#[derive(Clone, Copy, Debug, PartialEq, Eq, Structural)]
pub struct PointVote {
    x: i32,
    y: i32,
    weight: u32,
}

impl View for PointVote {
    type V = VoteModel;

    closed spec fn view(&self) -> VoteModel {
        VoteModel { x: self.x as int, y: self.y as int, weight: self.weight as int }
    }
}

impl PointVote {
    pub fn new(x: i32, y: i32, weight: u32) -> (r: Self)
        ensures
            r@ == (VoteModel { x: x as int, y: y as int, weight: weight as int }),
    {
        Self { x, y, weight }
    }

    pub fn get_x(&self) -> (r: i32)
        ensures
            r as int == self@.x,
    {
        self.x
    }

    pub fn get_y(&self) -> (r: i32)
        ensures
            r as int == self@.y,
    {
        self.y
    }

    pub fn get_weight(&self) -> (r: u32)
        ensures
            r as int == self@.weight,
    {
        self.weight
    }

    /// Field-wise sum of two votes; the sum must fit the field types.
    pub fn add(self, other: Self) -> (r: Self)
        requires
            vote_fits(combine(self@, other@)),
        ensures
            r@ == combine(self@, other@),
    {
        Self { x: self.x + other.x, y: self.y + other.y, weight: self.weight + other.weight }
    }

    /// Field-wise sum of two votes, or `None` when a field of the sum overflows.
    pub fn checked_add(self, other: Self) -> (r: Option<Self>)
        ensures
            r is Some <==> vote_fits(combine(self@, other@)),
            r is Some ==> r->0@ == combine(self@, other@),
    {
        match (self.x.checked_add(other.x), self.y.checked_add(other.y), self.weight.checked_add(other.weight)) {
            (Some(x), Some(y), Some(weight)) => Some(Self { x, y, weight }),
            _ => None,
        }
    }
}

/// Left fold of a sequence of votes under `combine`, starting at `vote_zero()`.
pub open spec fn fold_spec(votes: Seq<PointVote>) -> VoteModel
    decreases votes.len(),
{
    if votes.len() == 0 {
        vote_zero()
    } else {
        combine(fold_spec(votes.drop_last()), votes.last()@)
    }
}

/// Every running total of a left fold over `votes` can be stored in a `PointVote`.
pub open spec fn prefixes_fit(votes: Seq<PointVote>) -> bool {
    forall|k: int| 0 <= k <= votes.len() ==> vote_fits(#[trigger] fold_spec(votes.take(k)))
}

/// Folds the votes left to right into one aggregate vote. Folding nothing gives
/// the identity vote; `None` when a running total overflows a field.
pub fn fold_votes(votes: &Vec<PointVote>) -> (r: Option<PointVote>)
    ensures
        r is Some <==> prefixes_fit(votes@),
        r is Some ==> r->0@ == fold_spec(votes@),
{
    let mut acc = PointVote::new(0, 0, 0);
    let mut i: usize = 0;
    assert(votes@.take(0) =~= Seq::<PointVote>::empty());
    while i < votes.len()
        invariant
            i <= votes@.len(),
            acc@ == fold_spec(votes@.take(i as int)),
            forall|k: int| 0 <= k <= i ==> vote_fits(#[trigger] fold_spec(votes@.take(k))),
        decreases votes@.len() - i,
    {
        assert(votes@.take(i + 1).drop_last() =~= votes@.take(i as int));
        match acc.checked_add(votes[i]) {
            Some(next) => {
                acc = next;
                i = i + 1;
            },
            None => {
                assert(!vote_fits(fold_spec(votes@.take(i + 1))));
                return None;
            },
        }
    }
    assert(votes@.take(votes@.len() as int) =~= votes@);
    Some(acc)
}

} // verus!

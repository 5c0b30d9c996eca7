use vstd::prelude::*;
use crate::vote::{PointVote, VoteModel, fold_spec};

verus! {

/// The mathematical value of the contract state: a running weighted sum of
/// points over unbounded integers.
pub struct PointModel {
    pub x: int,
    pub y: int,
    pub total: int,
}

/// The state every contract starts from.
pub open spec fn point_zero() -> PointModel {
    PointModel { x: 0, y: 0, total: 0 }
}

/// The state after one vote is absorbed.
pub open spec fn apply(s: PointModel, v: VoteModel) -> PointModel {
    PointModel { x: s.x + v.x, y: s.y + v.y, total: s.total + v.weight }
}

/// The state after each vote is absorbed in turn, first to last.
pub open spec fn apply_each(s: PointModel, votes: Seq<PointVote>) -> PointModel
    decreases votes.len(),
{
    if votes.len() == 0 {
        s
    } else {
        apply(apply_each(s, votes.drop_last()), votes.last()@)
    }
}

/// The state can be stored in a `ContractPoint`: `x` and `y` in `i32`, `total` in `u32`.
pub open spec fn point_fits(s: PointModel) -> bool {
    &&& i32::MIN <= s.x <= i32::MAX
    &&& i32::MIN <= s.y <= i32::MAX
    &&& 0 <= s.total <= u32::MAX
}

/// One coordinate of the average point: the quotient truncated toward zero,
/// where a negative quotient reads as zero in the unsigned result.
pub open spec fn average_coord(c: int, total: int) -> int {
    if c >= 0 {
        c / total
    } else {
        0
    }
}

/// The authoritative contract state. It changes only by absorbing a vote,
/// which yields a new value; the accessors only read it.
#[derive(Clone, Copy, Debug, PartialEq, Eq, Structural)]
pub struct ContractPoint {
    x: i32,
    y: i32,
    total: u32,
}

impl View for ContractPoint {
    type V = PointModel;

    closed spec fn view(&self) -> PointModel {
        PointModel { x: self.x as int, y: self.y as int, total: self.total as int }
    }
}

impl ContractPoint {
    /// The zero state.
    pub fn new() -> (r: Self)
        ensures
            r@ == point_zero(),
    {
        Self { x: 0, y: 0, total: 0 }
    }

    pub fn get_x(&self) -> (r: i32)
        ensures
            r as int == self@.x,
    {
        self.x
    }

    pub fn get_y(&self) -> (r: i32)
        ensures
            r as int == self@.y,
    {
        self.y
    }

    pub fn get_total(&self) -> (r: u32)
        ensures
            r as int == self@.total,
    {
        self.total
    }

    /// The average point `(x / total, y / total)`, each coordinate truncated
    /// toward zero and read as zero when negative; `None` when `total` is zero.
    pub fn get_average(&self) -> (r: Option<(u64, u64)>)
        ensures
            r is None <==> self@.total == 0,
            r matches Some((ax, ay)) ==> ax as int == average_coord(self@.x, self@.total)
                && ay as int == average_coord(self@.y, self@.total),
    {
        if self.total == 0 {
            return None;
        }
        let total = self.total as u64;
        let ax: u64 = if self.x >= 0 { (self.x as u64) / total } else { 0 };
        let ay: u64 = if self.y >= 0 { (self.y as u64) / total } else { 0 };
        Some((ax, ay))
    }

    /// The state after absorbing `other`; the result must fit the field types.
    pub fn add(self, other: PointVote) -> (r: Self)
        requires
            point_fits(apply(self@, other@)),
        ensures
            r@ == apply(self@, other@),
    {
        Self {
            x: self.x + other.get_x(),
            y: self.y + other.get_y(),
            total: self.total + other.get_weight(),
        }
    }

    /// The state after absorbing `other`, or `None` when a field overflows.
    pub fn checked_add(self, other: PointVote) -> (r: Option<Self>)
        ensures
            r is Some <==> point_fits(apply(self@, other@)),
            r is Some ==> r->0@ == apply(self@, other@),
    {
        match (
            self.x.checked_add(other.get_x()),
            self.y.checked_add(other.get_y()),
            self.total.checked_add(other.get_weight()),
        ) {
            (Some(x), Some(y), Some(total)) => Some(Self { x, y, total }),
            _ => None,
        }
    }
}

} // verus!

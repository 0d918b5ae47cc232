//! Goal slots: five fixed landing targets in the top row, each claimable once.

use vstd::prelude::*;

verus! {

/// One goal slot: a fixed column and whether it has been claimed.
#[derive(Clone, Copy, Debug, PartialEq, Eq, Structural)]
pub struct GoalSlot {
    /// Grid column, fixed for the game.
    pub col: i64,
    /// Whether an actor has claimed this slot; never reverts within a game.
    pub occupied: bool,
}

/// Every slot is claimed.
pub open spec fn all_occupied(s: Seq<GoalSlot>) -> bool {
    forall|i: int| 0 <= i < s.len() ==> (#[trigger] s[i]).occupied
}

/// How many slots are claimed.
pub open spec fn occ_count(s: Seq<GoalSlot>) -> int
    decreases s.len(),
{
    if s.len() == 0 {
        0
    } else {
        occ_count(s.drop_last()) + if s.last().occupied {
            1 as int
        } else {
            0 as int
        }
    }
}

/// The claim count lies between zero and the number of slots.
pub proof fn lemma_occ_count_bounds(s: Seq<GoalSlot>)
    ensures
        0 <= occ_count(s) <= s.len(),
    decreases s.len(),
{
    if s.len() > 0 {
        lemma_occ_count_bounds(s.drop_last());
    }
}

/// A sequence with no claimed slot has claim count zero.
pub proof fn lemma_occ_count_zero(s: Seq<GoalSlot>)
    requires
        forall|i: int| 0 <= i < s.len() ==> !(#[trigger] s[i]).occupied,
    ensures
        occ_count(s) == 0,
    decreases s.len(),
{
    if s.len() > 0 {
        lemma_occ_count_zero(s.drop_last());
    }
}

/// Claiming one unclaimed slot raises the claim count by exactly one.
pub proof fn lemma_occ_count_claim(s: Seq<GoalSlot>, t: Seq<GoalSlot>, k: int)
    requires
        s.len() == t.len(),
        0 <= k < s.len(),
        !s[k].occupied,
        t[k].occupied,
        forall|j: int| 0 <= j < s.len() && j != k ==> s[j] == t[j],
    ensures
        occ_count(t) == occ_count(s) + 1,
    decreases s.len(),
{
    if k == s.len() - 1 {
        assert(s.drop_last() =~= t.drop_last());
    } else {
        lemma_occ_count_claim(s.drop_last(), t.drop_last(), k);
    }
}

} // verus!

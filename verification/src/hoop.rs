//! Hoops: where they hang and whether they have been scored.

use vstd::prelude::*;
use crate::level_data::{HalfPoint, Level};

verus! {

#[derive(Clone, Copy, Debug, PartialEq, Eq, Structural)]
pub enum HoopState {
    Pending,
    Scored,
}

#[derive(Clone, Copy, Debug, PartialEq, Eq, Structural)]
pub struct Hoop {
    pub position: HalfPoint,
    pub state: HoopState,
}

impl Hoop {
    /// A hoop at `position` that has not been scored yet.
    pub fn new(position: HalfPoint) -> (hoop: Hoop)
        ensures
            hoop.position == position,
            hoop.state == HoopState::Pending,
    {
        Hoop { position, state: HoopState::Pending }
    }
}

/// Number of scored hoops in the sequence.
pub open spec fn scored_count(hoops: Seq<Hoop>) -> nat
    decreases hoops.len(),
{
    if hoops.len() == 0 {
        0
    } else {
        scored_count(hoops.drop_last()) + if hoops.last().state == HoopState::Scored {
            1nat
        } else {
            0nat
        }
    }
}

/// Every hoop of the sequence has been scored.
pub open spec fn all_scored(hoops: Seq<Hoop>) -> bool {
    forall|k: int| 0 <= k < hoops.len() ==> (#[trigger] hoops[k]).state == HoopState::Scored
}

/// The hoops hang at the given positions, in order, none of them scored.
pub open spec fn fresh_hoops(hoops: Seq<Hoop>, positions: Seq<HalfPoint>) -> bool {
    &&& hoops.len() == positions.len()
    &&& forall|k: int|
        0 <= k < hoops.len() ==> (#[trigger] hoops[k]) == Hoop {
            position: positions[k],
            state: HoopState::Pending,
        }
}

/// The scored count never exceeds the number of hoops, and reaches it
/// exactly when every hoop has been scored.
pub proof fn lemma_scored_count_bounds(hoops: Seq<Hoop>)
    ensures
        scored_count(hoops) <= hoops.len(),
        scored_count(hoops) == hoops.len() <==> all_scored(hoops),
    decreases hoops.len(),
{
    if hoops.len() > 0 {
        let rest = hoops.drop_last();
        lemma_scored_count_bounds(rest);
        if all_scored(hoops) {
            assert forall|k: int| 0 <= k < rest.len() implies (#[trigger] rest[k]).state
                == HoopState::Scored by {
                assert(rest[k] == hoops[k]);
            }
        }
        if scored_count(hoops) == hoops.len() {
            assert forall|k: int| 0 <= k < hoops.len() implies (#[trigger] hoops[k]).state
                == HoopState::Scored by {
                if k < hoops.len() - 1 {
                    assert(rest[k] == hoops[k]);
                }
            }
        }
    }
}

/// Fresh hoops have no score.
pub proof fn lemma_scored_count_fresh(hoops: Seq<Hoop>)
    requires
        forall|k: int| 0 <= k < hoops.len() ==> (#[trigger] hoops[k]).state == HoopState::Pending,
    ensures
        scored_count(hoops) == 0,
    decreases hoops.len(),
{
    if hoops.len() > 0 {
        let rest = hoops.drop_last();
        assert forall|k: int| 0 <= k < rest.len() implies (#[trigger] rest[k]).state
            == HoopState::Pending by {
            assert(rest[k] == hoops[k]);
        }
        lemma_scored_count_fresh(rest);
    }
}

/// Scoring one pending hoop raises the count by exactly one.
pub proof fn lemma_scored_count_score_one(hoops: Seq<Hoop>, i: int)
    requires
        0 <= i < hoops.len(),
        hoops[i].state == HoopState::Pending,
    ensures
        scored_count(hoops.update(i, Hoop { position: hoops[i].position, state: HoopState::Scored }))
            == scored_count(hoops) + 1,
    decreases hoops.len(),
{
    let scored = Hoop { position: hoops[i].position, state: HoopState::Scored };
    let after = hoops.update(i, scored);
    if i == hoops.len() - 1 {
        assert(after.drop_last() =~= hoops.drop_last());
    } else {
        lemma_scored_count_score_one(hoops.drop_last(), i);
        assert(after.drop_last() =~= hoops.drop_last().update(i, scored));
    }
}

/// One pending hoop per hoop position of the level, in the same order.
pub fn build_hoops(level: &Level) -> (hoops: Vec<Hoop>)
    ensures
        fresh_hoops(hoops@, level.hoop_positions@),
{
    let n = level.hoop_positions.len();
    let mut hoops: Vec<Hoop> = Vec::new();
    let mut k: usize = 0;
    while k < n
        invariant
            n == level.hoop_positions@.len(),
            k <= n,
            fresh_hoops(hoops@, level.hoop_positions@.take(k as int)),
        decreases n - k,
    {
        hoops.push(Hoop::new(level.hoop_positions[k]));
        k += 1;
    }
    assert(level.hoop_positions@.take(n as int) =~= level.hoop_positions@);
    hoops
}

/// Counts the hoops that have been scored.
pub fn count_scored(hoops: &Vec<Hoop>) -> (count: usize)
    ensures
        count == scored_count(hoops@),
{
    let n = hoops.len();
    let mut count: usize = 0;
    let mut k: usize = 0;
    while k < n
        invariant
            n == hoops@.len(),
            k <= n,
            count == scored_count(hoops@.take(k as int)),
        decreases n - k,
    {
        proof {
            assert(hoops@.take(k + 1).drop_last() =~= hoops@.take(k as int));
            lemma_scored_count_bounds(hoops@.take(k as int));
        }
        if hoops[k].state == HoopState::Scored {
            count += 1;
        }
        k += 1;
    }
    assert(hoops@.take(n as int) =~= hoops@);
    count
}

} // verus!

//! Reward-bus selection. A bus (reward shard) is acceptable only while its
//! pooled rewards stay above a fixed safety margin over the global reward
//! rate; candidates are drawn at random and the first acceptable one wins.

use vstd::prelude::*;
use crate::rng::random_below;

verus! {

/// Number of reward buses the remote program maintains.
pub const BUS_COUNT: u64 = 8;

/// Factor by which a bus's pooled rewards must exceed the global reward
/// rate before this client will submit on it.
pub const BUS_MARGIN: u64 = 20;

/// One reward shard as fetched from the remote program: its identifier and
/// its accumulated reward pool.
#[derive(Clone, Copy, Debug, PartialEq, Eq, Structural)]
pub struct BusState {
    pub id: u64,
    pub rewards: u64,
}

/// A bus may be selected only if its pooled rewards strictly exceed twenty
/// times the global reward rate.
pub open spec fn bus_eligible(rewards: u64, reward_rate: u64) -> bool {
    rewards > BUS_MARGIN * (reward_rate as nat)
}

/// Whether a bus with the given reward pool clears the safety margin for
/// the given global reward rate. The margin is computed full-width: a rate
/// whose margin exceeds the largest representable pool disqualifies every
/// bus.
pub fn is_bus_eligible(rewards: u64, reward_rate: u64) -> (r: bool)
    ensures
        r == bus_eligible(rewards, reward_rate),
{
    match reward_rate.checked_mul(BUS_MARGIN) {
        Some(floor) => rewards > floor,
        None => false,
    }
}

/// Among the bus states observed so far, in the order they were drawn,
/// picks the first eligible one. Returns its position, or `None` when no
/// observed bus clears the margin. Deterministic in its inputs, so a replay
/// of the same draws selects the same bus; an ineligible bus is never
/// selected.
pub fn select_bus(buses: &Vec<BusState>, reward_rate: u64) -> (r: Option<usize>)
    ensures
        match r {
            Some(i) => {
                &&& i < buses@.len()
                &&& bus_eligible(buses@[i as int].rewards, reward_rate)
                &&& forall|j: int|
                    0 <= j < i ==> !bus_eligible(buses@[j].rewards, reward_rate)
            },
            None => forall|j: int|
                0 <= j < buses@.len() ==> !bus_eligible(buses@[j].rewards, reward_rate),
        },
{
    let n = buses.len();
    let mut i: usize = 0;
    while i < n
        invariant
            i <= n,
            n == buses@.len(),
            forall|j: int| 0 <= j < i ==> !bus_eligible(buses@[j].rewards, reward_rate),
        decreases n - i,
    {
        if is_bus_eligible(buses[i].rewards, reward_rate) {
            return Some(i);
        }
        i = i + 1;
    }
    None
}

/// Draws a uniformly random bus identifier.
pub fn draw_bus_id() -> (r: u64)
    ensures
        r < BUS_COUNT,
{
    random_below(BUS_COUNT)
}

} // verus!

//! Epoch-reset arbitration. When the current time passes the last reset
//! plus the epoch duration, a reset transaction is due; to keep every
//! client from racing to submit it, an eligible client volunteers only on
//! a one-in-`RESET_ODDS` random draw.

use vstd::prelude::*;
use crate::rng::random_below;

verus! {

/// Seconds after the last reset at which the epoch becomes stale.
pub const EPOCH_DURATION: i64 = 60;

/// One out of this many eligible clients volunteers to submit the reset.
pub const RESET_ODDS: u64 = 20;

/// The moment the epoch becomes stale: the last reset plus the epoch
/// duration, saturating at the largest representable time.
pub open spec fn epoch_threshold(last_reset_at: i64) -> int {
    if last_reset_at + EPOCH_DURATION > i64::MAX {
        i64::MAX as int
    } else {
        last_reset_at + EPOCH_DURATION
    }
}

/// Whether an epoch reset is due at time `now`.
pub open spec fn reset_due(last_reset_at: i64, now: i64) -> bool {
    now >= epoch_threshold(last_reset_at)
}

/// Whether the epoch is stale: `now` has reached the last reset plus the
/// epoch duration (computed saturating, as the remote program does).
pub fn epoch_reset_due(last_reset_at: i64, now: i64) -> (r: bool)
    ensures
        r == reset_due(last_reset_at, now),
{
    if last_reset_at > i64::MAX - EPOCH_DURATION {
        now == i64::MAX
    } else {
        now >= last_reset_at + EPOCH_DURATION
    }
}

/// The reset decision for one observed clock reading and one random draw:
/// submit only when the reset is due and the draw came up zero. Never true
/// while the epoch is still fresh, whatever the draw.
pub fn should_submit_reset(last_reset_at: i64, now: i64, draw: u64) -> (r: bool)
    requires
        draw < RESET_ODDS,
    ensures
        r == (reset_due(last_reset_at, now) && draw == 0),
{
    epoch_reset_due(last_reset_at, now) && draw == 0
}

/// Draws the random coin and decides whether this client submits the epoch
/// reset. A true result is only ever returned when the reset is due.
pub fn decide_reset(last_reset_at: i64, now: i64) -> (r: bool)
    ensures
        r ==> reset_due(last_reset_at, now),
{
    let draw = random_below(RESET_ODDS);
    should_submit_reset(last_reset_at, now, draw)
}

} // verus!

//! One mining round as a state machine. Each step consumes the outcome of
//! the previous remote or engine operation and decides the next state and
//! the next operation; the unverified driver only performs the operations
//! and feeds their outcomes back in.
//!
//! The round runs fetch, search, re-validation against the freshly fetched
//! challenge, epoch-reset arbitration, bus selection and submission, and
//! retries a rejected submission only after re-validating, so a lost race
//! is always detected before the next attempt.

use vstd::prelude::*;
use crate::bus::{BUS_COUNT, bus_eligible, draw_bus_id, is_bus_eligible};
use crate::epoch::{decide_reset, reset_due};
use crate::hashing::{valid_candidate, validate_hash};
use crate::protocol::{
    clone_bytes,
    encode_search_request,
    pairs_view,
    parse_search_response,
    parsed_records,
    request_bytes,
};

verus! {

/// Fatal ways a round can end without a submission: the engine could not
/// be started, its streams could not be written or read, or it returned no
/// candidate at all.
#[derive(Clone, Copy, Debug, PartialEq, Eq, Structural)]
pub enum RoundError {
    EngineSpawnError,
    EngineIOError,
    NoSolutionFound,
}

/// Where the round stands. States carry exactly the data later steps need.
pub enum RoundState {
    /// Waiting for the round's initial remote state.
    FetchState,
    /// Waiting for the external engine's response to the encoded request.
    Search { challenge: Vec<u8>, difficulty: Vec<u8> },
    /// Holding a candidate; waiting for the freshly fetched challenge to
    /// re-validate against before any submission attempt.
    ValidateBeforeSubmit { hash: Vec<u8>, nonce: u64, difficulty: Vec<u8> },
    /// Waiting for the epoch clock to arbitrate a best-effort reset.
    MaybeResetEpoch { hash: Vec<u8>, nonce: u64, difficulty: Vec<u8> },
    /// Waiting for a randomly drawn bus's state.
    SelectBus { hash: Vec<u8>, nonce: u64, difficulty: Vec<u8>, reward_rate: u64 },
    /// Waiting for the outcome of the mine submission.
    Submit { hash: Vec<u8>, nonce: u64, difficulty: Vec<u8>, bus_id: u64 },
    /// The submission landed.
    Done,
    /// Another miner's submission landed first; a normal race loss.
    Stale,
    /// The round cannot proceed.
    Failed { error: RoundError },
}

/// The outcome of the operation the round last asked for.
pub enum RoundEvent {
    /// The round's initial state arrived: current challenge and difficulty.
    StateFetched { challenge: Vec<u8>, difficulty: Vec<u8> },
    /// A remote fetch failed; transient.
    FetchFailed,
    /// The engine ran to completion and its whole output stream was read.
    EngineOutput { bytes: Vec<u8> },
    /// The engine process could not be started.
    EngineSpawnFailed,
    /// Writing the request or reading the response failed.
    EngineIoFailed,
    /// The challenge as fetched immediately before a submission attempt.
    FreshChallenge { challenge: Vec<u8> },
    /// The epoch state, the clock, and the current global reward rate.
    EpochInfo { last_reset_at: i64, now: i64, reward_rate: u64 },
    /// The best-effort reset submission finished, successfully or not.
    ResetAttempted,
    /// The drawn bus's state arrived.
    BusFetched { id: u64, rewards: u64 },
    /// The drawn bus could not be fetched; another will be drawn.
    BusFetchFailed,
    /// The mine transaction was accepted.
    MineSubmitted,
    /// The mine transaction was rejected.
    MineRejected,
}

/// What the driver must do next.
pub enum RoundAction {
    /// Fetch challenge and difficulty, then report `StateFetched`.
    FetchAll,
    /// Run the engine on the given request bytes, then report its output.
    RunEngine { request: Vec<u8> },
    /// Fetch the current challenge, then report `FreshChallenge`.
    RefetchChallenge,
    /// Fetch epoch state, clock and reward rate, then report `EpochInfo`.
    ReadEpochInfo,
    /// Submit the epoch-reset transaction, best effort, then report
    /// `ResetAttempted` whatever happened.
    SubmitReset,
    /// Fetch the state of the given bus, then report `BusFetched`.
    FetchBus { id: u64 },
    /// Submit the mine transaction, then report the outcome.
    SubmitMine { bus_id: u64, hash: Vec<u8>, nonce: u64 },
    /// The round is over.
    Halt,
}

/// The sizes a state's payload always has: 32-byte hashes and
/// difficulties, and a bus identifier within range.
pub open spec fn state_wf(s: RoundState) -> bool {
    match s {
        RoundState::FetchState => true,
        RoundState::Search { challenge, difficulty } => challenge@.len() == 32
            && difficulty@.len() == 32,
        RoundState::ValidateBeforeSubmit { hash, nonce, difficulty } => hash@.len() == 32
            && difficulty@.len() == 32,
        RoundState::MaybeResetEpoch { hash, nonce, difficulty } => hash@.len() == 32
            && difficulty@.len() == 32,
        RoundState::SelectBus { hash, nonce, difficulty, reward_rate } => hash@.len() == 32
            && difficulty@.len() == 32,
        RoundState::Submit { hash, nonce, difficulty, bus_id } => hash@.len() == 32
            && difficulty@.len() == 32 && bus_id < BUS_COUNT,
        RoundState::Done => true,
        RoundState::Stale => true,
        RoundState::Failed { error } => true,
    }
}

/// Which events answer which states: the driver hands each state exactly
/// the outcome of the operation that state is waiting for.
pub open spec fn event_fits(s: RoundState, e: RoundEvent) -> bool {
    match (s, e) {
        (RoundState::FetchState, RoundEvent::StateFetched { challenge, difficulty }) => challenge@.len()
            == 32 && difficulty@.len() == 32,
        (RoundState::FetchState, RoundEvent::FetchFailed) => true,
        (RoundState::Search { .. }, RoundEvent::EngineOutput { .. }) => true,
        (RoundState::Search { .. }, RoundEvent::EngineSpawnFailed) => true,
        (RoundState::Search { .. }, RoundEvent::EngineIoFailed) => true,
        (RoundState::ValidateBeforeSubmit { .. }, RoundEvent::FreshChallenge { challenge }) => challenge@.len()
            == 32,
        (RoundState::ValidateBeforeSubmit { .. }, RoundEvent::FetchFailed) => true,
        (RoundState::MaybeResetEpoch { .. }, RoundEvent::EpochInfo { .. }) => true,
        (RoundState::MaybeResetEpoch { .. }, RoundEvent::FetchFailed) => true,
        (RoundState::SelectBus { .. }, RoundEvent::ResetAttempted) => true,
        (RoundState::SelectBus { .. }, RoundEvent::BusFetched { id, rewards }) => id < BUS_COUNT,
        (RoundState::SelectBus { .. }, RoundEvent::BusFetchFailed) => true,
        (RoundState::Submit { .. }, RoundEvent::MineSubmitted) => true,
        (RoundState::Submit { .. }, RoundEvent::MineRejected) => true,
        _ => false,
    }
}

/// The round's transition relation: which next state and action may answer
/// a state and an event. Deterministic but for the random draws behind
/// bus selection and reset arbitration.
pub open spec fn transition_ok(
    pre: RoundState,
    identity: Seq<u8>,
    event: RoundEvent,
    post: RoundState,
    action: RoundAction,
) -> bool {
    match (pre, event) {
        (RoundState::FetchState, RoundEvent::StateFetched { challenge, difficulty }) => {
            &&& post matches RoundState::Search { challenge: pc, difficulty: pd } && pc@
                == challenge@ && pd@ == difficulty@
            &&& action matches RoundAction::RunEngine { request } && request@ == request_bytes(
                difficulty@,
                seq![(challenge@, identity)],
            )
        },
        (RoundState::FetchState, RoundEvent::FetchFailed) => {
            &&& post matches RoundState::FetchState
            &&& action matches RoundAction::FetchAll
        },
        (RoundState::Search { challenge, difficulty }, RoundEvent::EngineOutput { bytes }) => {
            let records = parsed_records(bytes@);
            if records.len() == 0 {
                &&& post matches RoundState::Failed { error: RoundError::NoSolutionFound }
                &&& action matches RoundAction::Halt
            } else {
                &&& post matches RoundState::ValidateBeforeSubmit { hash, nonce, difficulty: pd }
                    && hash@ == records[0].0 && nonce == records[0].1 && pd@ == difficulty@
                &&& action matches RoundAction::RefetchChallenge
            }
        },
        (RoundState::Search { .. }, RoundEvent::EngineSpawnFailed) => {
            &&& post matches RoundState::Failed { error: RoundError::EngineSpawnError }
            &&& action matches RoundAction::Halt
        },
        (RoundState::Search { .. }, RoundEvent::EngineIoFailed) => {
            &&& post matches RoundState::Failed { error: RoundError::EngineIOError }
            &&& action matches RoundAction::Halt
        },
        (
            RoundState::ValidateBeforeSubmit { hash, nonce, difficulty },
            RoundEvent::FreshChallenge { challenge },
        ) => {
            if valid_candidate(hash@, challenge@, identity, nonce, difficulty@) {
                &&& post matches RoundState::MaybeResetEpoch { hash: ph, nonce: pn, difficulty: pd }
                    && ph@ == hash@ && pn == nonce && pd@ == difficulty@
                &&& action matches RoundAction::ReadEpochInfo
            } else {
                &&& post matches RoundState::Stale
                &&& action matches RoundAction::Halt
            }
        },
        (RoundState::ValidateBeforeSubmit { .. }, RoundEvent::FetchFailed) => {
            &&& post matches RoundState::FetchState
            &&& action matches RoundAction::FetchAll
        },
        (
            RoundState::MaybeResetEpoch { hash, nonce, difficulty },
            RoundEvent::EpochInfo { last_reset_at, now, reward_rate },
        ) => {
            &&& post matches RoundState::SelectBus {
                hash: ph,
                nonce: pn,
                difficulty: pd,
                reward_rate: pr,
            } && ph@ == hash@ && pn == nonce && pd@ == difficulty@ && pr == reward_rate
            &&& {
                ||| (action matches RoundAction::SubmitReset && reset_due(last_reset_at, now))
                ||| (action matches RoundAction::FetchBus { id } && id < BUS_COUNT)
            }
        },
        (RoundState::MaybeResetEpoch { .. }, RoundEvent::FetchFailed) => {
            &&& post matches RoundState::FetchState
            &&& action matches RoundAction::FetchAll
        },
        (
            RoundState::SelectBus { hash, nonce, difficulty, reward_rate },
            RoundEvent::ResetAttempted,
        ) => {
            &&& post matches RoundState::SelectBus {
                hash: ph,
                nonce: pn,
                difficulty: pd,
                reward_rate: pr,
            } && ph@ == hash@ && pn == nonce && pd@ == difficulty@ && pr == reward_rate
            &&& action matches RoundAction::FetchBus { id } && id < BUS_COUNT
        },
        (
            RoundState::SelectBus { hash, nonce, difficulty, reward_rate },
            RoundEvent::BusFetched { id, rewards },
        ) => {
            if bus_eligible(rewards, reward_rate) {
                &&& post matches RoundState::Submit {
                    hash: ph,
                    nonce: pn,
                    difficulty: pd,
                    bus_id,
                } && ph@ == hash@ && pn == nonce && pd@ == difficulty@ && bus_id == id
                &&& action matches RoundAction::SubmitMine { bus_id: ab, hash: ah, nonce: an }
                    && ab == id && ah@ == hash@ && an == nonce
            } else {
                &&& post matches RoundState::SelectBus {
                    hash: ph,
                    nonce: pn,
                    difficulty: pd,
                    reward_rate: pr,
                } && ph@ == hash@ && pn == nonce && pd@ == difficulty@ && pr == reward_rate
                &&& action matches RoundAction::FetchBus { id: next } && next < BUS_COUNT
            }
        },
        (
            RoundState::SelectBus { hash, nonce, difficulty, reward_rate },
            RoundEvent::BusFetchFailed,
        ) => {
            &&& post matches RoundState::SelectBus {
                hash: ph,
                nonce: pn,
                difficulty: pd,
                reward_rate: pr,
            } && ph@ == hash@ && pn == nonce && pd@ == difficulty@ && pr == reward_rate
            &&& action matches RoundAction::FetchBus { id } && id < BUS_COUNT
        },
        (RoundState::Submit { .. }, RoundEvent::MineSubmitted) => {
            &&& post matches RoundState::Done
            &&& action matches RoundAction::Halt
        },
        (RoundState::Submit { hash, nonce, difficulty, bus_id }, RoundEvent::MineRejected) => {
            &&& post matches RoundState::ValidateBeforeSubmit { hash: ph, nonce: pn, difficulty: pd }
                && ph@ == hash@ && pn == nonce && pd@ == difficulty@
            &&& action matches RoundAction::RefetchChallenge
        },
        _ => false,
    }
}

/// The state and action every round begins with: fetch the remote state.
pub fn round_start() -> (r: (RoundState, RoundAction))
    ensures
        r.0 matches RoundState::FetchState,
        r.1 matches RoundAction::FetchAll,
        state_wf(r.0),
{
    (RoundState::FetchState, RoundAction::FetchAll)
}

/// One step of the round: consumes the outcome of the last operation and
/// returns the next state with the next operation, as the transition
/// relation allows. Well-formedness of the state is preserved.
pub fn round_step(state: RoundState, identity: &Vec<u8>, event: RoundEvent) -> (r: (
    RoundState,
    RoundAction,
))
    requires
        identity@.len() == 32,
        state_wf(state),
        event_fits(state, event),
    ensures
        transition_ok(state, identity@, event, r.0, r.1),
        state_wf(r.0),
{
    match (state, event) {
        (RoundState::FetchState, RoundEvent::StateFetched { challenge, difficulty }) => {
            let mut pairs: Vec<(Vec<u8>, Vec<u8>)> = Vec::new();
            pairs.push((clone_bytes(&challenge), clone_bytes(identity)));
            let request = encode_search_request(&difficulty, &pairs);
            proof {
                assert(pairs_view(pairs@) =~= seq![(challenge@, identity@)]);
            }
            (RoundState::Search { challenge, difficulty }, RoundAction::RunEngine { request })
        },
        (RoundState::FetchState, RoundEvent::FetchFailed) => {
            (RoundState::FetchState, RoundAction::FetchAll)
        },
        (RoundState::Search { challenge, difficulty }, RoundEvent::EngineOutput { bytes }) => {
            let mut records = parse_search_response(&bytes);
            if records.len() == 0 {
                (
                    RoundState::Failed { error: RoundError::NoSolutionFound },
                    RoundAction::Halt,
                )
            } else {
                let first = records.remove(0);
                (
                    RoundState::ValidateBeforeSubmit {
                        hash: first.hash,
                        nonce: first.nonce,
                        difficulty,
                    },
                    RoundAction::RefetchChallenge,
                )
            }
        },
        (RoundState::Search { .. }, RoundEvent::EngineSpawnFailed) => {
            (RoundState::Failed { error: RoundError::EngineSpawnError }, RoundAction::Halt)
        },
        (RoundState::Search { .. }, RoundEvent::EngineIoFailed) => {
            (RoundState::Failed { error: RoundError::EngineIOError }, RoundAction::Halt)
        },
        (
            RoundState::ValidateBeforeSubmit { hash, nonce, difficulty },
            RoundEvent::FreshChallenge { challenge },
        ) => {
            if validate_hash(&hash, &challenge, identity, nonce, &difficulty) {
                (
                    RoundState::MaybeResetEpoch { hash, nonce, difficulty },
                    RoundAction::ReadEpochInfo,
                )
            } else {
                (RoundState::Stale, RoundAction::Halt)
            }
        },
        (RoundState::ValidateBeforeSubmit { .. }, RoundEvent::FetchFailed) => {
            (RoundState::FetchState, RoundAction::FetchAll)
        },
        (
            RoundState::MaybeResetEpoch { hash, nonce, difficulty },
            RoundEvent::EpochInfo { last_reset_at, now, reward_rate },
        ) => {
            let action = if decide_reset(last_reset_at, now) {
                RoundAction::SubmitReset
            } else {
                RoundAction::FetchBus { id: draw_bus_id() }
            };
            (RoundState::SelectBus { hash, nonce, difficulty, reward_rate }, action)
        },
        (RoundState::MaybeResetEpoch { .. }, RoundEvent::FetchFailed) => {
            (RoundState::FetchState, RoundAction::FetchAll)
        },
        (
            RoundState::SelectBus { hash, nonce, difficulty, reward_rate },
            RoundEvent::ResetAttempted,
        ) => {
            (
                RoundState::SelectBus { hash, nonce, difficulty, reward_rate },
                RoundAction::FetchBus { id: draw_bus_id() },
            )
        },
        (
            RoundState::SelectBus { hash, nonce, difficulty, reward_rate },
            RoundEvent::BusFetched { id, rewards },
        ) => {
            if is_bus_eligible(rewards, reward_rate) {
                let submitted_hash = clone_bytes(&hash);
                (
                    RoundState::Submit { hash, nonce, difficulty, bus_id: id },
                    RoundAction::SubmitMine { bus_id: id, hash: submitted_hash, nonce },
                )
            } else {
                (
                    RoundState::SelectBus { hash, nonce, difficulty, reward_rate },
                    RoundAction::FetchBus { id: draw_bus_id() },
                )
            }
        },
        (
            RoundState::SelectBus { hash, nonce, difficulty, reward_rate },
            RoundEvent::BusFetchFailed,
        ) => {
            (
                RoundState::SelectBus { hash, nonce, difficulty, reward_rate },
                RoundAction::FetchBus { id: draw_bus_id() },
            )
        },
        (RoundState::Submit { .. }, RoundEvent::MineSubmitted) => {
            (RoundState::Done, RoundAction::Halt)
        },
        (RoundState::Submit { hash, nonce, difficulty, bus_id }, RoundEvent::MineRejected) => {
            (
                RoundState::ValidateBeforeSubmit { hash, nonce, difficulty },
                RoundAction::RefetchChallenge,
            )
        },
        _ => {
            proof {
                assert(false);
            }
            vstd::pervasive::unreached()
        },
    }
}

/// A candidate that fails validation against the freshly fetched challenge
/// ends the round as stale, with no further operation: a submission is
/// never attempted for a challenge the candidate no longer matches.
pub proof fn lemma_stale_exit(
    pre: RoundState,
    identity: Seq<u8>,
    event: RoundEvent,
    post: RoundState,
    action: RoundAction,
)
    requires
        transition_ok(pre, identity, event, post, action),
        pre matches RoundState::ValidateBeforeSubmit { hash, nonce, difficulty }
            && event matches RoundEvent::FreshChallenge { challenge } && !valid_candidate(
            hash@,
            challenge@,
            identity,
            nonce,
            difficulty@,
        ),
    ensures
        post matches RoundState::Stale,
        action matches RoundAction::Halt,
{
}

/// A candidate that does validate against the freshly fetched challenge
/// carries the round on towards submission.
pub proof fn lemma_validated_proceeds(
    pre: RoundState,
    identity: Seq<u8>,
    event: RoundEvent,
    post: RoundState,
    action: RoundAction,
)
    requires
        transition_ok(pre, identity, event, post, action),
        pre matches RoundState::ValidateBeforeSubmit { hash, nonce, difficulty }
            && event matches RoundEvent::FreshChallenge { challenge } && valid_candidate(
            hash@,
            challenge@,
            identity,
            nonce,
            difficulty@,
        ),
    ensures
        post matches RoundState::MaybeResetEpoch { .. },
        action matches RoundAction::ReadEpochInfo,
{
}

/// A mine transaction is only ever submitted on a bus whose fetched state
/// cleared the reward margin.
pub proof fn lemma_submit_needs_eligible_bus(
    pre: RoundState,
    identity: Seq<u8>,
    event: RoundEvent,
    post: RoundState,
    action: RoundAction,
)
    requires
        transition_ok(pre, identity, event, post, action),
        action matches RoundAction::SubmitMine { .. },
    ensures
        pre matches RoundState::SelectBus { reward_rate, .. } && event matches
            RoundEvent::BusFetched { id, rewards } && bus_eligible(rewards, reward_rate),
{
}

/// The epoch-reset transaction is only ever submitted when the reset was
/// due at the observed clock reading.
pub proof fn lemma_reset_only_when_due(
    pre: RoundState,
    identity: Seq<u8>,
    event: RoundEvent,
    post: RoundState,
    action: RoundAction,
)
    requires
        transition_ok(pre, identity, event, post, action),
        action matches RoundAction::SubmitReset,
    ensures
        pre matches RoundState::MaybeResetEpoch { .. },
        event matches RoundEvent::EpochInfo { last_reset_at, now, reward_rate } && reset_due(
            last_reset_at,
            now,
        ),
{
}

} // verus!

use ore_miner::bus::{draw_bus_id, is_bus_eligible, select_bus, BusState};
use ore_miner::compare::{greater_than, less_or_equal};
use ore_miner::display::display_balance;
use ore_miner::epoch::{decide_reset, epoch_reset_due, should_submit_reset};
use ore_miner::hashing::{bytes_equal, find_next_hash, validate_hash};
use ore_miner::protocol::{encode_search_request, parse_search_response};
use ore_miner::round::{round_start, round_step, RoundAction, RoundError, RoundEvent, RoundState};

fn keyed_hash_bytes(challenge: &[u8], identity: &[u8], nonce: u64) -> Vec<u8> {
    solana_sdk::keccak::hashv(&[challenge, identity, &nonce.to_le_bytes()])
        .to_bytes()
        .to_vec()
}

#[test]
fn compare_agrees_with_big_integer_order() {
    let pairs: Vec<(Vec<u8>, Vec<u8>)> = vec![
        (vec![0u8; 32], vec![0u8; 32]),
        (vec![0xFFu8; 32], vec![0xFFu8; 32]),
        ({ let mut a = vec![0u8; 32]; a[0] = 1; a }, vec![0xFFu8; 32]),
        ({ let mut a = vec![0u8; 32]; a[31] = 9; a }, { let mut b = vec![0u8; 32]; b[31] = 8; b }),
        ({ let mut a = vec![5u8; 32]; a[16] = 1; a }, { let mut b = vec![5u8; 32]; b[16] = 2; b }),
        (vec![0u8; 32], { let mut b = vec![0u8; 32]; b[31] = 1; b }),
    ];
    for (a, b) in pairs {
        // For equal-width byte strings, lexicographic order is big-endian
        // numeric order, which Rust's native slice comparison gives.
        assert_eq!(less_or_equal(&a, &b), a <= b);
        assert_eq!(less_or_equal(&b, &a), b <= a);
        assert_eq!(greater_than(&a, &b), a > b);
    }
}

#[test]
fn compare_is_full_width() {
    // Differ only in the very last byte: no truncated comparison may tie.
    let a = vec![7u8; 32];
    let mut b = vec![7u8; 32];
    b[31] = 8;
    assert!(less_or_equal(&a, &b));
    assert!(!less_or_equal(&b, &a));
    assert!(greater_than(&b, &a));
}

#[test]
fn bytes_equal_tells_apart() {
    let a = vec![1u8, 2, 3];
    let mut b = a.clone();
    assert!(bytes_equal(&a, &b));
    b[2] = 4;
    assert!(!bytes_equal(&a, &b));
    assert!(!bytes_equal(&a, &vec![1u8, 2]));
}

#[test]
fn validate_accepts_correct_candidate() {
    let challenge = vec![0x22u8; 32];
    let identity = vec![0x11u8; 32];
    let nonce = 5u64;
    let hash = keyed_hash_bytes(&challenge, &identity, nonce);
    // Difficulty equal to the hash itself: the boundary case is accepted.
    assert!(validate_hash(&hash, &challenge, &identity, nonce, &hash));
    // Roomier difficulty is accepted too.
    assert!(validate_hash(&hash, &challenge, &identity, nonce, &vec![0xFFu8; 32]));
}

#[test]
fn validate_rejects_wrong_hash() {
    let challenge = vec![0x22u8; 32];
    let identity = vec![0x11u8; 32];
    let nonce = 5u64;
    let mut hash = keyed_hash_bytes(&challenge, &identity, nonce);
    hash[0] ^= 1;
    // The recomputation branch alone must fail: difficulty is maximal.
    assert!(!validate_hash(&hash, &challenge, &identity, nonce, &vec![0xFFu8; 32]));
    // Handing the challenge back in place of its digest must fail too.
    let echoed = challenge.clone();
    let real = keyed_hash_bytes(&challenge, &identity, nonce);
    assert_eq!(
        validate_hash(&echoed, &challenge, &identity, nonce, &vec![0xFFu8; 32]),
        echoed == real
    );
}

#[test]
fn validate_rejects_insufficient_difficulty() {
    let challenge = vec![0x22u8; 32];
    let identity = vec![0x11u8; 32];
    let nonce = 7u64;
    let hash = keyed_hash_bytes(&challenge, &identity, nonce);
    // Difficulty strictly below the hash: the difficulty branch alone fails.
    let zero = vec![0u8; 32];
    assert_eq!(
        validate_hash(&hash, &challenge, &identity, nonce, &zero),
        hash == zero
    );
}

#[test]
fn search_finds_first_satisfying_nonce() {
    let challenge = vec![3u8; 32];
    let identity = vec![4u8; 32];
    // Maximal difficulty: nonce zero already satisfies it.
    let found = find_next_hash(&challenge, &identity, &vec![0xFFu8; 32]);
    let (hash, nonce) = found.expect("a satisfying nonce must exist");
    assert_eq!(nonce, 0);
    assert_eq!(hash, keyed_hash_bytes(&challenge, &identity, 0));
}

#[test]
fn request_layout_is_exact() {
    let difficulty = vec![0xAAu8; 32];
    let challenge = vec![0xBBu8; 32];
    let identity = vec![0xCCu8; 32];
    let request = encode_search_request(&difficulty, &vec![(challenge.clone(), identity.clone())]);
    assert_eq!(request.len(), 1 + 32 + 32 + 32);
    assert_eq!(request[0], 0);
    assert_eq!(&request[1..33], &difficulty[..]);
    assert_eq!(&request[33..65], &challenge[..]);
    assert_eq!(&request[65..97], &identity[..]);
}

#[test]
fn request_batches_pairs_in_order() {
    let difficulty = vec![1u8; 32];
    let pairs = vec![
        (vec![2u8; 32], vec![3u8; 32]),
        (vec![4u8; 32], vec![5u8; 32]),
    ];
    let request = encode_search_request(&difficulty, &pairs);
    assert_eq!(request.len(), 1 + 32 + 4 * 32);
    assert_eq!(&request[33..65], &[2u8; 32][..]);
    assert_eq!(&request[65..97], &[3u8; 32][..]);
    assert_eq!(&request[97..129], &[4u8; 32][..]);
    assert_eq!(&request[129..161], &[5u8; 32][..]);
}

fn record(hash_byte: u8, nonce: u64) -> Vec<u8> {
    let mut r = vec![hash_byte; 32];
    r.extend_from_slice(&nonce.to_le_bytes());
    r
}

#[test]
fn response_round_trips_n_records() {
    let mut bytes = Vec::new();
    bytes.extend_from_slice(&record(0x01, 5));
    bytes.extend_from_slice(&record(0x02, u64::MAX));
    bytes.extend_from_slice(&record(0x03, 0));
    let parsed = parse_search_response(&bytes);
    assert_eq!(parsed.len(), 3);
    assert_eq!(parsed[0].hash, vec![0x01u8; 32]);
    assert_eq!(parsed[0].nonce, 5);
    assert_eq!(parsed[1].hash, vec![0x02u8; 32]);
    assert_eq!(parsed[1].nonce, u64::MAX);
    assert_eq!(parsed[2].hash, vec![0x03u8; 32]);
    assert_eq!(parsed[2].nonce, 0);
}

#[test]
fn response_trailing_fragment_is_dropped() {
    let mut bytes = Vec::new();
    bytes.extend_from_slice(&record(0x0A, 42));
    bytes.extend_from_slice(&record(0x0B, 43));
    bytes.extend_from_slice(&[9u8; 7]);
    let parsed = parse_search_response(&bytes);
    assert_eq!(parsed.len(), 2);
    assert_eq!(parsed[0].nonce, 42);
    assert_eq!(parsed[1].nonce, 43);
}

#[test]
fn response_shorter_than_one_record_is_empty() {
    assert_eq!(parse_search_response(&Vec::new()).len(), 0);
    assert_eq!(parse_search_response(&vec![1u8; 39]).len(), 0);
}

#[test]
fn nonce_is_read_little_endian() {
    let mut bytes = vec![0u8; 32];
    bytes.extend_from_slice(&[1, 2, 3, 4, 5, 6, 7, 8]);
    let parsed = parse_search_response(&bytes);
    assert_eq!(parsed.len(), 1);
    assert_eq!(parsed[0].nonce, u64::from_le_bytes([1, 2, 3, 4, 5, 6, 7, 8]));
}

#[test]
fn bus_margin_is_strict() {
    // rewards must strictly exceed 20 times the rate.
    assert!(!is_bus_eligible(200, 10));
    assert!(is_bus_eligible(201, 10));
    assert!(!is_bus_eligible(0, 0));
    assert!(is_bus_eligible(1, 0));
}

#[test]
fn bus_margin_saturates_against_overflow() {
    // A rate whose margin exceeds every representable pool disqualifies all.
    assert!(!is_bus_eligible(u64::MAX, u64::MAX));
    assert!(!is_bus_eligible(u64::MAX, u64::MAX / 20 + 1));
}

#[test]
fn bus_selection_takes_first_eligible_and_replays() {
    let buses = vec![
        BusState { id: 4, rewards: 5 },
        BusState { id: 1, rewards: 1000 },
        BusState { id: 6, rewards: 2000 },
    ];
    let picked = select_bus(&buses, 10);
    assert_eq!(picked, Some(1));
    // Deterministic in its inputs: a replay selects the same bus.
    assert_eq!(select_bus(&buses, 10), picked);
    // An ineligible bus is never selected.
    let poor = vec![
        BusState { id: 0, rewards: 200 },
        BusState { id: 1, rewards: 199 },
    ];
    assert_eq!(select_bus(&poor, 10), None);
}

#[test]
fn bus_draws_stay_in_range() {
    for _ in 0..200 {
        assert!(draw_bus_id() < 8);
    }
}

#[test]
fn epoch_reset_never_before_threshold() {
    // Threshold is last reset plus sixty seconds.
    for draw in 0..20 {
        assert!(!should_submit_reset(100, 159, draw));
    }
    assert!(!epoch_reset_due(100, 159));
    assert!(epoch_reset_due(100, 160));
}

#[test]
fn epoch_reset_exactly_on_zero_draw() {
    assert!(should_submit_reset(100, 160, 0));
    for draw in 1..20 {
        assert!(!should_submit_reset(100, 160, draw));
    }
}

#[test]
fn epoch_threshold_saturates() {
    assert!(!epoch_reset_due(i64::MAX - 30, i64::MAX - 1));
    assert!(epoch_reset_due(i64::MAX - 30, i64::MAX));
}

#[test]
fn epoch_decision_false_while_fresh() {
    // Whatever the hidden draw, a fresh epoch never volunteers.
    for _ in 0..100 {
        assert!(!decide_reset(0, 0));
    }
}

#[test]
fn balance_display_falls_back_to_zero() {
    assert_eq!(display_balance(Some("1.23".to_string())), "1.23");
    assert_eq!(display_balance(None), "0.00");
}

#[test]
fn round_reaches_submission_for_valid_candidate() {
    let identity = vec![0x11u8; 32];
    let challenge = vec![0x22u8; 32];
    let nonce = 5u64;
    let hash = keyed_hash_bytes(&challenge, &identity, nonce);
    let difficulty = hash.clone();

    let (state, action) = round_start();
    assert!(matches!(state, RoundState::FetchState));
    assert!(matches!(action, RoundAction::FetchAll));

    let (state, action) = round_step(
        state,
        &identity,
        RoundEvent::StateFetched { challenge: challenge.clone(), difficulty: difficulty.clone() },
    );
    assert!(matches!(state, RoundState::Search { .. }));
    match &action {
        RoundAction::RunEngine { request } => {
            assert_eq!(request[0], 0);
            assert_eq!(&request[1..33], &difficulty[..]);
            assert_eq!(&request[33..65], &challenge[..]);
            assert_eq!(&request[65..97], &identity[..]);
        }
        _ => panic!("expected an engine run"),
    }

    let mut output = hash.clone();
    output.extend_from_slice(&nonce.to_le_bytes());
    let (state, action) = round_step(state, &identity, RoundEvent::EngineOutput { bytes: output });
    match &state {
        RoundState::ValidateBeforeSubmit { hash: h, nonce: n, .. } => {
            assert_eq!(h, &hash);
            assert_eq!(*n, nonce);
        }
        _ => panic!("expected validation next"),
    }
    assert!(matches!(action, RoundAction::RefetchChallenge));

    let (state, action) = round_step(
        state,
        &identity,
        RoundEvent::FreshChallenge { challenge: challenge.clone() },
    );
    assert!(matches!(state, RoundState::MaybeResetEpoch { .. }));
    assert!(matches!(action, RoundAction::ReadEpochInfo));

    // Epoch still fresh: never a reset submission, a bus draw instead.
    let (state, action) = round_step(
        state,
        &identity,
        RoundEvent::EpochInfo { last_reset_at: 0, now: 0, reward_rate: 1 },
    );
    assert!(matches!(state, RoundState::SelectBus { .. }));
    match action {
        RoundAction::FetchBus { id } => assert!(id < 8),
        _ => panic!("expected a bus fetch"),
    }

    let (state, action) = round_step(
        state,
        &identity,
        RoundEvent::BusFetched { id: 3, rewards: 1000 },
    );
    match &state {
        RoundState::Submit { bus_id, .. } => assert_eq!(*bus_id, 3),
        _ => panic!("expected submission next"),
    }
    match &action {
        RoundAction::SubmitMine { bus_id, hash: h, nonce: n } => {
            assert_eq!(*bus_id, 3);
            assert_eq!(h, &hash);
            assert_eq!(*n, nonce);
        }
        _ => panic!("expected a mine submission"),
    }

    let (state, action) = round_step(state, &identity, RoundEvent::MineSubmitted);
    assert!(matches!(state, RoundState::Done));
    assert!(matches!(action, RoundAction::Halt));
}

#[test]
fn round_exits_stale_when_challenge_moved() {
    let identity = vec![0x11u8; 32];
    let challenge = vec![0x22u8; 32];
    let moved_challenge = vec![0x33u8; 32];
    let nonce = 5u64;
    let hash = keyed_hash_bytes(&challenge, &identity, nonce);
    let difficulty = hash.clone();

    let state = RoundState::ValidateBeforeSubmit {
        hash: hash.clone(),
        nonce,
        difficulty,
    };
    // The candidate no longer matches the current challenge: the round must
    // end stale, with no submission attempted.
    let (state, action) = round_step(
        state,
        &identity,
        RoundEvent::FreshChallenge { challenge: moved_challenge },
    );
    assert!(matches!(state, RoundState::Stale));
    assert!(matches!(action, RoundAction::Halt));
}

#[test]
fn round_revalidates_after_rejection() {
    let identity = vec![0x11u8; 32];
    let hash = vec![0x44u8; 32];
    let state = RoundState::Submit {
        hash: hash.clone(),
        nonce: 9,
        difficulty: vec![0xFFu8; 32],
        bus_id: 2,
    };
    let (state, action) = round_step(state, &identity, RoundEvent::MineRejected);
    match &state {
        RoundState::ValidateBeforeSubmit { hash: h, nonce, .. } => {
            assert_eq!(h, &hash);
            assert_eq!(*nonce, 9);
        }
        _ => panic!("expected re-validation before a retry"),
    }
    assert!(matches!(action, RoundAction::RefetchChallenge));
}

#[test]
fn round_fails_without_candidates() {
    let identity = vec![0x11u8; 32];
    let state = RoundState::Search {
        challenge: vec![0x22u8; 32],
        difficulty: vec![0xFFu8; 32],
    };
    let (state, action) = round_step(state, &identity, RoundEvent::EngineOutput { bytes: Vec::new() });
    assert!(matches!(
        state,
        RoundState::Failed { error: RoundError::NoSolutionFound }
    ));
    assert!(matches!(action, RoundAction::Halt));
}

#[test]
fn round_treats_lone_fragment_as_no_solution() {
    let identity = vec![0x11u8; 32];
    let state = RoundState::Search {
        challenge: vec![0x22u8; 32],
        difficulty: vec![0xFFu8; 32],
    };
    let (state, _) = round_step(
        state,
        &identity,
        RoundEvent::EngineOutput { bytes: vec![7u8; 39] },
    );
    assert!(matches!(
        state,
        RoundState::Failed { error: RoundError::NoSolutionFound }
    ));
}

#[test]
fn round_retries_fetch_failures_from_the_top() {
    let identity = vec![0x11u8; 32];
    let (state, action) = round_step(RoundState::FetchState, &identity, RoundEvent::FetchFailed);
    assert!(matches!(state, RoundState::FetchState));
    assert!(matches!(action, RoundAction::FetchAll));

    let state = RoundState::ValidateBeforeSubmit {
        hash: vec![0u8; 32],
        nonce: 0,
        difficulty: vec![0u8; 32],
    };
    let (state, action) = round_step(state, &identity, RoundEvent::FetchFailed);
    assert!(matches!(state, RoundState::FetchState));
    assert!(matches!(action, RoundAction::FetchAll));
}

#[test]
fn round_redraws_on_ineligible_bus() {
    let identity = vec![0x11u8; 32];
    let state = RoundState::SelectBus {
        hash: vec![0x44u8; 32],
        nonce: 1,
        difficulty: vec![0xFFu8; 32],
        reward_rate: 10,
    };
    // 200 does not strictly exceed 20 * 10: redraw, never submit.
    let (state, action) = round_step(
        state,
        &identity,
        RoundEvent::BusFetched { id: 0, rewards: 200 },
    );
    assert!(matches!(state, RoundState::SelectBus { .. }));
    match action {
        RoundAction::FetchBus { id } => assert!(id < 8),
        _ => panic!("expected a redraw"),
    }
}

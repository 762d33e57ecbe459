use ore_miner_core::bus::BusSnapshot;
use ore_miner_core::orchestrator::step;
use ore_miner_core::orchestrator::MinerAction;
use ore_miner_core::orchestrator::MinerEvent;
use ore_miner_core::orchestrator::MinerState;
use ore_miner_core::policy::Config;
use ore_miner_core::policy::MinerProof;
use ore_miner_core::search::count_leading_zero_bits;
use ore_miner_core::search::merge_candidates;
use ore_miner_core::search::offer;
use ore_miner_core::search::oracle_candidate;
use ore_miner_core::search::search_worker;
use ore_miner_core::search::worker_start_nonce;
use ore_miner_core::search::Candidate;
use ore_miner_core::shaper::MineInstruction;

fn candidate(nonce: u64, difficulty: u32) -> Candidate {
    Candidate { nonce, digest: [0u8; 16], hash: [0u8; 32], difficulty }
}

#[test]
fn count_leading_zero_bits_matches_bit_layout() {
    assert_eq!(count_leading_zero_bits(&[0u8; 32]), 256);
    let mut h = [0u8; 32];
    h[0] = 0x80;
    assert_eq!(count_leading_zero_bits(&h), 0);
    h[0] = 0x01;
    assert_eq!(count_leading_zero_bits(&h), 7);
    h[0] = 0;
    h[1] = 0x10;
    assert_eq!(count_leading_zero_bits(&h), 11);
    h[1] = 0;
    h[31] = 1;
    assert_eq!(count_leading_zero_bits(&h), 255);
}

#[test]
fn offer_replaces_only_on_strictly_greater_difficulty() {
    let mut best = candidate(1, 5);
    offer(&mut best, &candidate(2, 5));
    assert_eq!(best.nonce, 1, "a tie must keep the first writer");
    offer(&mut best, &candidate(3, 4));
    assert_eq!(best.nonce, 1);
    offer(&mut best, &candidate(4, 6));
    assert_eq!(best.nonce, 4);
    assert_eq!(best.difficulty, 6);
}

#[test]
fn merge_candidates_finds_the_true_maximum() {
    let results = vec![candidate(10, 3), candidate(11, 9), candidate(12, 9), candidate(13, 2)];
    let best = merge_candidates(&results);
    assert_eq!(best.difficulty, 9);
    assert_eq!(best.nonce, 11, "the earliest holder of the maximum wins");
}

#[test]
fn merge_candidates_difficulty_is_order_independent() {
    let a = vec![candidate(1, 3), candidate(2, 9), candidate(3, 7)];
    let b = vec![candidate(3, 7), candidate(1, 3), candidate(2, 9)];
    assert_eq!(merge_candidates(&a).difficulty, merge_candidates(&b).difficulty);
}

#[test]
fn merge_of_nothing_is_the_zero_difficulty_initial_cell() {
    let best = merge_candidates(&Vec::new());
    assert_eq!(best.difficulty, 0);
    assert_eq!(best.nonce, 0);
    assert_eq!(best.digest, [0u8; 16]);
}

#[test]
fn worker_start_nonces_partition_the_space() {
    assert_eq!(worker_start_nonce(0, 1), 0);
    let chunk = u64::MAX / 4;
    for i in 0..4u64 {
        assert_eq!(worker_start_nonce(i, 4), chunk * i);
    }
    // adjacent ranges touch without overlapping
    for i in 0..3u64 {
        assert!(worker_start_nonce(i, 4) + chunk <= worker_start_nonce(i + 1, 4));
    }
    // the truncated tail above 4 * floor(MAX / 4) is in no starting range
    assert_eq!(u64::MAX - chunk * 4, 3);
    // a divisor of the full space leaves no tail
    assert_eq!(u64::MAX - (u64::MAX / 3) * 3, 0);
}

#[test]
fn oracle_candidate_reports_drillx_outputs_faithfully() {
    let challenge = [7u8; 32];
    let mut memory = drillx::equix::SolverMemory::new();
    let mut solved = 0u32;
    for nonce in 0..40u64 {
        let ours = oracle_candidate(&mut memory, &challenge, nonce);
        let theirs = drillx::hash(&challenge, &nonce.to_le_bytes());
        match (ours, theirs) {
            (Some(c), Ok(hx)) => {
                solved += 1;
                assert_eq!(c.nonce, nonce);
                assert_eq!(c.digest, hx.d);
                assert_eq!(c.hash, hx.h);
                assert_eq!(c.difficulty, hx.difficulty());
                assert!(drillx::is_valid_digest(&challenge, &nonce.to_le_bytes(), &c.digest));
            },
            (None, Err(_)) => {},
            (ours, theirs) => {
                panic!("oracle disagreement at nonce {nonce}: {:?} vs {:?}", ours.map(|c| c.difficulty), theirs.map(|h| h.difficulty()));
            },
        }
    }
    assert!(solved > 0, "at least one of 40 nonces should be solvable");
}

#[test]
fn search_worker_returns_a_candidate_it_really_evaluated() {
    let challenge = [3u8; 32];
    let start = 1000u64;
    let best = search_worker(&challenge, start, 0);
    if best.difficulty == 0 {
        // nothing beat the initial cell
        assert_eq!(best.nonce, 0);
        assert_eq!(best.hash, [0u8; 32]);
    } else {
        assert!(best.nonce >= start);
        let hx = drillx::hash(&challenge, &best.nonce.to_le_bytes())
            .expect("a winning candidate must come from a solvable nonce");
        assert_eq!(best.hash, hx.h);
        assert_eq!(best.digest, hx.d);
        assert_eq!(best.difficulty, hx.difficulty());
    }
}

fn test_config() -> Config {
    Config { min_difficulty: 1, top_balance: 100, last_reset_at: 100, epoch_duration: 60 }
}

fn test_snapshot() -> MinerProof {
    MinerProof { challenge: [5u8; 32], balance: 40, last_hash_at: 200, claimable_rewards: 3 }
}

#[test]
fn step_walks_one_full_cycle() {
    let (s, a) = step(MinerState::Registering, MinerEvent::Registered);
    assert!(matches!(a, MinerAction::FetchSnapshot));
    assert!(matches!(s, MinerState::AwaitingSnapshot { last_hash_at: 0, last_balance: 0 }));

    let (s, a) = step(s, MinerEvent::SnapshotRead { config: test_config(), snapshot: test_snapshot() });
    match &a {
        MinerAction::RunSearch { challenge, budget_secs } => {
            assert_eq!(*challenge, [5u8; 32]);
            assert_eq!(*budget_secs, 60);
        },
        other => panic!("expected RunSearch, got {other:?}"),
    }
    assert!(matches!(s, MinerState::Searching { last_hash_at: 200, last_balance: 40, .. }));

    let best = Candidate { nonce: 77, digest: [8u8; 16], hash: [1u8; 32], difficulty: 12 };
    let (s, a) = step(s, MinerEvent::SearchDone { best });
    assert!(matches!(a, MinerAction::FetchDecisionInputs));
    assert!(matches!(s, MinerState::Deciding { .. }));

    // now = 155 makes the reset due (100 + 60 - 5 <= 155); draw 0 includes it
    let busses = Some(vec![
        Some(BusSnapshot { id: 0, rewards: 5 }),
        Some(BusSnapshot { id: 1, rewards: 9 }),
        Some(BusSnapshot { id: 2, rewards: 3 }),
    ]);
    let (s, a) = step(
        s,
        MinerEvent::DecisionInputs { now: 155, busses, reset_draw: 0, bus_draw: 6 },
    );
    match &a {
        MinerAction::Submit { instructions, compute_budget } => {
            assert_eq!(*compute_budget, 600_000);
            assert_eq!(instructions.len(), 3);
            assert!(matches!(instructions[0], MineInstruction::Auth));
            assert!(matches!(instructions[1], MineInstruction::Reset));
            match &instructions[2] {
                MineInstruction::Mine { bus_id, solution } => {
                    assert_eq!(*bus_id, 1);
                    assert_eq!(solution.nonce, 77);
                    assert_eq!(solution.digest, [8u8; 16]);
                },
                other => panic!("expected Mine last, got {other:?}"),
            }
        },
        other => panic!("expected Submit, got {other:?}"),
    }
    assert!(matches!(s, MinerState::Submitting { .. }));

    let (s, a) = step(s, MinerEvent::SubmissionDone { accepted: false });
    assert!(matches!(a, MinerAction::FetchSnapshot));
    assert!(matches!(s, MinerState::AwaitingSnapshot { last_hash_at: 200, last_balance: 40 }));
}

#[test]
fn step_submits_even_a_zero_difficulty_solution() {
    let searching = step(
        step(MinerState::Registering, MinerEvent::Registered).0,
        MinerEvent::SnapshotRead { config: test_config(), snapshot: test_snapshot() },
    ).0;
    let best = Candidate { nonce: 1, digest: [0u8; 16], hash: [0u8; 32], difficulty: 0 };
    let (s, a) = step(searching, MinerEvent::SearchDone { best });
    assert!(matches!(a, MinerAction::FetchDecisionInputs), "every finished search is carried forward");
    let (_, a) = step(
        s,
        MinerEvent::DecisionInputs { now: 0, busses: None, reset_draw: 1, bus_draw: 0 },
    );
    match &a {
        MinerAction::Submit { instructions, .. } => {
            match &instructions[instructions.len() - 1] {
                MineInstruction::Mine { solution, .. } => assert_eq!(solution.nonce, 1),
                other => panic!("expected Mine last, got {other:?}"),
            }
        },
        other => panic!("expected Submit even at difficulty 0, got {other:?}"),
    }
}

#[test]
fn step_submits_without_reset_on_a_losing_draw_and_falls_back_on_a_failed_bus_read() {
    let searching = step(
        step(MinerState::Registering, MinerEvent::Registered).0,
        MinerEvent::SnapshotRead { config: test_config(), snapshot: test_snapshot() },
    ).0;
    let best = Candidate { nonce: 9, digest: [2u8; 16], hash: [0u8; 32], difficulty: 1 };
    let deciding = step(searching, MinerEvent::SearchDone { best }).0;
    let (_, a) = step(
        deciding,
        MinerEvent::DecisionInputs { now: 155, busses: None, reset_draw: 17, bus_draw: 13 },
    );
    match &a {
        MinerAction::Submit { instructions, compute_budget } => {
            assert_eq!(*compute_budget, 500_000);
            assert_eq!(instructions.len(), 2);
            assert!(matches!(instructions[0], MineInstruction::Auth));
            match &instructions[1] {
                MineInstruction::Mine { bus_id, .. } => assert_eq!(*bus_id, 13 % 8),
                other => panic!("expected Mine last, got {other:?}"),
            }
        },
        other => panic!("expected Submit, got {other:?}"),
    }
}

#[test]
fn step_ignores_an_event_that_does_not_fit() {
    let (s, a) = step(MinerState::Registering, MinerEvent::SubmissionDone { accepted: true });
    assert!(matches!(a, MinerAction::Idle));
    assert!(matches!(s, MinerState::Registering));
}

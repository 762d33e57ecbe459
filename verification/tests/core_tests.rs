use ore_miner_core::bus::find_bus;
use ore_miner_core::bus::select_bus;
use ore_miner_core::bus::BusSnapshot;
use ore_miner_core::custom_hash::calculate_difficulty;
use ore_miner_core::custom_hash::custom_hash;
use ore_miner_core::policy::exceeds_available_cores;
use ore_miner_core::policy::get_cutoff;
use ore_miner_core::policy::maybe_include_reset;
use ore_miner_core::policy::should_reset;
use ore_miner_core::policy::Config;
use ore_miner_core::policy::MinerProof;
use ore_miner_core::shaper::shape;
use ore_miner_core::shaper::MineInstruction;
use ore_miner_core::shaper::SearchSolution;

fn config(last_reset_at: i64, epoch_duration: i64) -> Config {
    Config { min_difficulty: 0, top_balance: 0, last_reset_at, epoch_duration }
}

fn proof_at(last_hash_at: i64) -> MinerProof {
    MinerProof { challenge: [0u8; 32], balance: 0, last_hash_at, claimable_rewards: 0 }
}

#[test]
fn custom_hash_of_empty_input_is_the_seed() {
    let h = custom_hash(&[]);
    let mut expected = [0u8; 32];
    expected[..8].copy_from_slice(&[239, 205, 171, 144, 120, 86, 52, 18]);
    assert_eq!(h, expected);
}

#[test]
fn custom_hash_folds_bytes_in_order() {
    let h = custom_hash(&[1, 2, 3]);
    let mut expected = [0u8; 32];
    expected[..8].copy_from_slice(&[195, 166, 240, 26, 125, 90, 58, 40]);
    assert_eq!(h, expected);

    let h2 = custom_hash(b"abc");
    let mut expected2 = [0u8; 32];
    expected2[..8].copy_from_slice(&[99, 37, 147, 115, 30, 13, 149, 79]);
    assert_eq!(h2, expected2);
}

#[test]
fn custom_hash_upper_bytes_are_zero() {
    let h = custom_hash(b"anything at all");
    assert!(h[8..].iter().all(|&b| b == 0));
}

#[test]
fn calculate_difficulty_counts_leading_zero_bytes() {
    assert_eq!(calculate_difficulty(&[0u8; 32]), 32);
    let mut h = [0u8; 32];
    h[0] = 1;
    assert_eq!(calculate_difficulty(&h), 0);
    let mut h2 = [0u8; 32];
    h2[2] = 5;
    assert_eq!(calculate_difficulty(&h2), 2);
    let mut h3 = [0u8; 32];
    h3[31] = 255;
    assert_eq!(calculate_difficulty(&h3), 31);
}

#[test]
fn should_reset_flips_exactly_at_the_buffered_epoch_end() {
    // last_reset_at + epoch_duration - buffer = 100 + 60 - 5 = 155
    assert!(!should_reset(&config(100, 60), 154));
    assert!(should_reset(&config(100, 60), 155));
    assert!(should_reset(&config(100, 60), 156));
}

#[test]
fn should_reset_handles_extreme_timestamps() {
    assert!(!should_reset(&config(i64::MAX, i64::MAX), i64::MAX));
    assert!(should_reset(&config(i64::MIN, 0), 0));
}

#[test]
fn get_cutoff_saturates_at_zero() {
    for now in [61, 100, 10_000, i64::MAX] {
        assert_eq!(get_cutoff(&proof_at(0), 300, now), 0);
    }
}

#[test]
fn get_cutoff_exact_value() {
    // 100 + 60 - 5 - 120 = 35
    assert_eq!(get_cutoff(&proof_at(100), 5, 120), 35);
    // boundary: exactly zero remaining
    assert_eq!(get_cutoff(&proof_at(100), 5, 155), 0);
}

#[test]
fn exceeds_available_cores_is_a_strict_comparison() {
    assert!(exceeds_available_cores(9, 8));
    assert!(!exceeds_available_cores(8, 8));
    assert!(!exceeds_available_cores(1, 8));
}

#[test]
fn maybe_include_reset_gates_on_the_draw() {
    assert!(maybe_include_reset(true, 0));
    assert!(!maybe_include_reset(true, 1));
    assert!(!maybe_include_reset(true, 99));
    assert!(maybe_include_reset(true, 100));
    assert!(!maybe_include_reset(false, 0));
}

fn bus(id: u64, rewards: u64) -> Option<BusSnapshot> {
    Some(BusSnapshot { id, rewards })
}

#[test]
fn select_bus_picks_the_largest_rewards() {
    let busses = vec![bus(0, 5), bus(1, 9), bus(2, 3)];
    assert_eq!(select_bus(&busses), 1);
}

#[test]
fn select_bus_tie_keeps_the_earliest_maximum() {
    let busses = vec![bus(0, 9), bus(1, 9), bus(2, 3)];
    assert_eq!(select_bus(&busses), 0);
}

#[test]
fn select_bus_skips_unreadable_entries_and_defaults_to_zero() {
    let busses = vec![None, bus(3, 7), None, bus(4, 2)];
    assert_eq!(select_bus(&busses), 3);
    let empty: Vec<Option<BusSnapshot>> = vec![None, None];
    assert_eq!(select_bus(&empty), 0);
    let zeros = vec![bus(5, 0), bus(6, 0)];
    assert_eq!(select_bus(&zeros), 0);
}

#[test]
fn find_bus_uses_the_read_when_it_succeeded() {
    let read = Some(vec![bus(0, 1), bus(7, 10)]);
    assert_eq!(find_bus(&read), 7);
}

#[test]
fn find_bus_falls_back_to_a_random_bus_in_range() {
    for _ in 0..50 {
        let r = find_bus(&None);
        assert!(r < 8);
    }
}

#[test]
fn shape_without_reset_is_auth_then_mine_at_baseline_budget() {
    let solution = SearchSolution { digest: [7u8; 16], nonce: 42 };
    let (ixs, budget) = shape(&solution, 3, false);
    assert_eq!(budget, 500_000);
    assert_eq!(ixs.len(), 2);
    assert_eq!(ixs[0], MineInstruction::Auth);
    assert_eq!(ixs[1], MineInstruction::Mine { bus_id: 3, solution });
}

#[test]
fn shape_with_reset_inserts_it_between_auth_and_mine() {
    let solution = SearchSolution { digest: [9u8; 16], nonce: 7 };
    let (ixs, budget) = shape(&solution, 0, true);
    assert_eq!(budget, 600_000);
    assert_eq!(ixs.len(), 3);
    assert_eq!(ixs[0], MineInstruction::Auth);
    assert_eq!(ixs[1], MineInstruction::Reset);
    assert_eq!(ixs[2], MineInstruction::Mine { bus_id: 0, solution });
}

use vstd::prelude::*;

verus! {

/// Seconds in one mining cycle: the search budget and the hash period length.
pub const CYCLE_SECONDS: u64 = 60;

/// Safety buffer, in seconds, absorbing clock skew when deciding whether the
/// epoch is due for a reset.
pub const RESET_BUFFER_SECONDS: i64 = 5;

/// A reset, even when due, is included in a submission only one time in this
/// many cycles, so that independent clients do not all race to pay for it.
pub const RESET_INCLUSION_ODDS: u64 = 100;

/// Snapshot of the on-ledger configuration account, refreshed once per cycle.
#[derive(Clone, Copy, PartialEq, Eq, Structural, Debug)]
pub struct Config {
    /// Minimum difficulty the ledger accepts for a solution.
    pub min_difficulty: u64,
    /// Normalization constant for the reward multiplier display.
    pub top_balance: u64,
    /// Unix time at which the epoch was last reset.
    pub last_reset_at: i64,
    /// Length of one epoch in seconds.
    pub epoch_duration: i64,
}

/// Snapshot of the caller's on-ledger proof account, refreshed once per cycle.
#[derive(Clone, Copy, Debug)]
pub struct MinerProof {
    /// The current search problem.
    pub challenge: [u8; 32],
    /// Cumulative staked balance.
    pub balance: u64,
    /// Unix time of the last accepted hash.
    pub last_hash_at: i64,
    /// Rewards that could be claimed.
    pub claimable_rewards: u64,
}

/// The epoch is due for a reset when the end of the epoch, pulled in by the
/// safety buffer, is no later than the current time.
pub open spec fn should_reset_spec(config: Config, now: i64) -> bool {
    config.last_reset_at + config.epoch_duration - RESET_BUFFER_SECONDS <= now
}

/// Decides whether the epoch needs resetting, given the clock reading `now`.
pub fn should_reset(config: &Config, now: i64) -> (r: bool)
    ensures
        r == should_reset_spec(*config, now),
{
    let threshold: i128 = config.last_reset_at as i128 + config.epoch_duration as i128
        - RESET_BUFFER_SECONDS as i128;
    threshold <= now as i128
}

/// Seconds left until the current hash period closes, never negative:
/// `max(0, last_hash_at + CYCLE_SECONDS - buffer_time - now)`.
pub open spec fn cutoff_spec(last_hash_at: i64, buffer_time: u64, now: i64) -> int {
    let remaining = last_hash_at + CYCLE_SECONDS - buffer_time - now;
    if remaining < 0 {
        0
    } else {
        remaining
    }
}

/// Remaining useful search time for the current hash period, saturating at
/// zero below and at `i64::MAX` above.
pub fn get_cutoff(proof: &MinerProof, buffer_time: u64, now: i64) -> (r: u64)
    ensures
        cutoff_spec(proof.last_hash_at, buffer_time, now) <= i64::MAX ==> r == cutoff_spec(
            proof.last_hash_at,
            buffer_time,
            now,
        ),
        cutoff_spec(proof.last_hash_at, buffer_time, now) > i64::MAX ==> r == i64::MAX as u64,
{
    let remaining: i128 = proof.last_hash_at as i128 + CYCLE_SECONDS as i128
        - buffer_time as i128 - now as i128;
    if remaining <= 0 {
        0
    } else if remaining > i64::MAX as i128 {
        i64::MAX as u64
    } else {
        remaining as u64
    }
}

/// A due reset is actually included only when the uniform draw in
/// `[0, RESET_INCLUSION_ODDS)` lands on zero.
pub open spec fn include_reset_spec(reset_due: bool, random_draw: u64) -> bool {
    reset_due && random_draw % RESET_INCLUSION_ODDS == 0
}

/// Probabilistic gate on a due reset: include it only when the random draw
/// lands on zero modulo the inclusion odds.
pub fn maybe_include_reset(reset_due: bool, random_draw: u64) -> (r: bool)
    ensures
        r == include_reset_spec(reset_due, random_draw),
{
    reset_due && random_draw % RESET_INCLUSION_ODDS == 0
}

/// The worker-count sanity check: a configured worker count above the
/// host's available execution units deserves a warning, but is still
/// honored, never clamped.
pub fn exceeds_available_cores(requested: u64, available: u64) -> (r: bool)
    ensures
        r == (requested > available),
{
    requested > available
}

/// The cutoff is exhausted once the clock has passed the buffered period end:
/// with a fresh period start at time zero and a buffer longer than the
/// period, any positive clock reading leaves nothing.
pub proof fn lemma_cutoff_exhausted(buffer_time: u64, now: i64)
    requires
        buffer_time >= CYCLE_SECONDS,
        now >= 0,
    ensures
        cutoff_spec(0, buffer_time, now) == 0,
{
}

} // verus!

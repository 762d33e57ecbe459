use vstd::prelude::*;
use crate::bus::select_bus;
use crate::bus::selected_bus;
use crate::bus::busses_wf;
use crate::bus::BusSnapshot;
use crate::bus::BUS_COUNT;
use crate::policy::include_reset_spec;
use crate::policy::maybe_include_reset;
use crate::policy::should_reset;
use crate::policy::should_reset_spec;
use crate::policy::Config;
use crate::policy::MinerProof;
use crate::policy::CYCLE_SECONDS;
use crate::search::Candidate;
use crate::shaper::shape;
use crate::shaper::shaped_budget;
use crate::shaper::shaped_ixs;
use crate::shaper::MineInstruction;
use crate::shaper::SearchSolution;

verus! {

/// Where the mining loop stands: registration once at startup, then the
/// cycle of reading state, searching, deciding and submitting, forever.
#[derive(Clone, Copy, Debug)]
pub enum MinerState {
    /// Before the on-ledger proof account is known to exist.
    Registering,
    /// Between cycles, waiting for fresh Config and Proof snapshots.
    AwaitingSnapshot { last_hash_at: i64, last_balance: u64 },
    /// The search phase is running on the snapshot's challenge.
    Searching { last_hash_at: i64, last_balance: u64, config: Config, snapshot: MinerProof },
    /// The search is over; waiting for the clock, bus and draw inputs that
    /// the submission decisions need.
    Deciding { last_hash_at: i64, last_balance: u64, config: Config, solution: SearchSolution },
    /// A shaped submission is in flight.
    Submitting { last_hash_at: i64, last_balance: u64 },
}

/// What the outside world reports back to the loop.
#[derive(Clone, Debug)]
pub enum MinerEvent {
    /// The proof account exists (created if it was missing).
    Registered,
    /// Fresh snapshots of the configuration and proof accounts.
    SnapshotRead { config: Config, snapshot: MinerProof },
    /// The search phase finished with its best candidate. The cycle budget
    /// is enforced by the engine's own per-worker timers, so the finished
    /// search is always carried forward.
    SearchDone { best: Candidate },
    /// The inputs of the submission decisions: the clock, the bus bulk read
    /// (`None` when it failed as a unit), and the two uniform draws.
    DecisionInputs {
        now: i64,
        busses: Option<Vec<Option<BusSnapshot>>>,
        reset_draw: u64,
        bus_draw: u64,
    },
    /// The submission sink reported success or failure; either way the next
    /// cycle starts fresh.
    SubmissionDone { accepted: bool },
}

/// What the loop asks the outside world to do next.
#[derive(Clone, Debug)]
pub enum MinerAction {
    /// Ensure the proof account exists.
    Register,
    /// Fetch fresh Config and Proof snapshots.
    FetchSnapshot,
    /// Run the parallel search on this challenge for this many seconds.
    RunSearch { challenge: [u8; 32], budget_secs: u64 },
    /// Fetch the clock, the bus set, and two uniform draws.
    FetchDecisionInputs,
    /// Sign, broadcast and confirm this instruction sequence under this
    /// compute budget.
    Submit { instructions: Vec<MineInstruction>, compute_budget: u64 },
    /// The event did not belong to the current state; nothing to do.
    Idle,
}

/// The bus the decision settles on: the fullest readable bus when the bulk
/// read succeeded, otherwise the uniform draw mapped onto the identity set.
pub open spec fn decision_bus(busses: Option<Vec<Option<BusSnapshot>>>, bus_draw: u64) -> u64 {
    match busses {
        Some(b) => selected_bus(b@).0,
        None => bus_draw % BUS_COUNT,
    }
}

/// Whether the submission carries the reset instruction: the epoch must be
/// due and the uniform draw must land on zero.
pub open spec fn decision_include_reset(config: Config, now: i64, reset_draw: u64) -> bool {
    include_reset_spec(should_reset_spec(config, now), reset_draw)
}

/// The state/event pairs the loop expects; any other pairing is ignored.
pub open spec fn event_fits(state: MinerState, event: MinerEvent) -> bool {
    ||| (state matches MinerState::Registering && event matches MinerEvent::Registered)
    ||| (state matches MinerState::AwaitingSnapshot { .. } && event matches MinerEvent::SnapshotRead { .. })
    ||| (state matches MinerState::Searching { .. } && event matches MinerEvent::SearchDone { .. })
    ||| (state matches MinerState::Deciding { .. } && event matches MinerEvent::DecisionInputs { .. })
    ||| (state matches MinerState::Submitting { .. } && event matches MinerEvent::SubmissionDone { .. })
}

/// One transition of the mining loop: consumes the event the outside world
/// delivered and says what to do next. The cycle runs
/// read state -> search -> decide -> submit -> read state, forever. Each
/// finished search hands its solution (even one of difficulty zero) to the
/// shaper exactly once, and a finished submission loops back whether or not
/// it was accepted.
pub fn step(state: MinerState, event: MinerEvent) -> (r: (MinerState, MinerAction))
    requires
        event matches MinerEvent::DecisionInputs { busses, .. } ==> (busses matches Some(b)
            ==> busses_wf(b@)),
    ensures
        state matches MinerState::Registering ==> (event matches MinerEvent::Registered ==> r.0
            == (MinerState::AwaitingSnapshot { last_hash_at: 0, last_balance: 0 }) && r.1 matches
            MinerAction::FetchSnapshot),
        state matches MinerState::AwaitingSnapshot { .. } ==> (event
            matches MinerEvent::SnapshotRead { config, snapshot } ==> r.0
            == (MinerState::Searching {
            last_hash_at: snapshot.last_hash_at,
            last_balance: snapshot.balance,
            config,
            snapshot,
        }) && (r.1 matches MinerAction::RunSearch { challenge, budget_secs } && challenge
            == snapshot.challenge && budget_secs == CYCLE_SECONDS)),
        state matches MinerState::Searching { last_hash_at, last_balance, config, snapshot } ==> (
        event matches MinerEvent::SearchDone { best } ==> r.0 == (MinerState::Deciding {
            last_hash_at,
            last_balance,
            config,
            solution: SearchSolution { digest: best.digest, nonce: best.nonce },
        }) && r.1 matches MinerAction::FetchDecisionInputs),
        state matches MinerState::Deciding { last_hash_at, last_balance, config, solution } ==> (
        event matches MinerEvent::DecisionInputs { now, busses, reset_draw, bus_draw } ==> r.0
            == (MinerState::Submitting { last_hash_at, last_balance }) && (r.1 matches
            MinerAction::Submit { instructions, compute_budget } && instructions@ == shaped_ixs(
            solution,
            decision_bus(busses, bus_draw),
            decision_include_reset(config, now, reset_draw),
        ) && compute_budget == shaped_budget(decision_include_reset(config, now, reset_draw)))),
        state matches MinerState::Submitting { last_hash_at, last_balance } ==> (event
            matches MinerEvent::SubmissionDone { .. } ==> r.0 == (MinerState::AwaitingSnapshot {
            last_hash_at,
            last_balance,
        }) && r.1 matches MinerAction::FetchSnapshot),
        !event_fits(state, event) ==> r.0 == state && r.1 matches MinerAction::Idle,
{
    match (state, event) {
        (MinerState::Registering, MinerEvent::Registered) => (
            MinerState::AwaitingSnapshot { last_hash_at: 0, last_balance: 0 },
            MinerAction::FetchSnapshot,
        ),
        (MinerState::AwaitingSnapshot { .. }, MinerEvent::SnapshotRead { config, snapshot }) => (
            MinerState::Searching {
                last_hash_at: snapshot.last_hash_at,
                last_balance: snapshot.balance,
                config,
                snapshot,
            },
            MinerAction::RunSearch { challenge: snapshot.challenge, budget_secs: CYCLE_SECONDS },
        ),
        (
            MinerState::Searching { last_hash_at, last_balance, config, snapshot: _ },
            MinerEvent::SearchDone { best },
        ) => (
            MinerState::Deciding {
                last_hash_at,
                last_balance,
                config,
                solution: SearchSolution { digest: best.digest, nonce: best.nonce },
            },
            MinerAction::FetchDecisionInputs,
        ),
        (
            MinerState::Deciding { last_hash_at, last_balance, config, solution },
            MinerEvent::DecisionInputs { now, busses, reset_draw, bus_draw },
        ) => {
            let reset_due = should_reset(&config, now);
            let include_reset = maybe_include_reset(reset_due, reset_draw);
            let bus_id = match &busses {
                Some(b) => select_bus(b),
                None => bus_draw % BUS_COUNT,
            };
            let (instructions, compute_budget) = shape(&solution, bus_id, include_reset);
            (
                MinerState::Submitting { last_hash_at, last_balance },
                MinerAction::Submit { instructions, compute_budget },
            )
        },
        (MinerState::Submitting { last_hash_at, last_balance }, MinerEvent::SubmissionDone { .. }) => (
            MinerState::AwaitingSnapshot { last_hash_at, last_balance },
            MinerAction::FetchSnapshot,
        ),
        (s, _) => (s, MinerAction::Idle),
    }
}

} // verus!

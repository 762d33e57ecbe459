use vstd::prelude::*;

verus! {

/// Compute units requested for a cycle's transaction before any optional
/// instruction is added.
pub const BASE_COMPUTE_BUDGET: u64 = 500_000;

/// Additional compute units requested when the reset instruction rides
/// along.
pub const RESET_COMPUTE_INCREMENT: u64 = 100_000;

/// The best (nonce, digest) pair one search phase settles on; consumed by
/// the transaction shaper.
#[derive(Clone, Copy, Debug, PartialEq)]
pub struct SearchSolution {
    /// Digest the oracle produced for the winning nonce.
    pub digest: [u8; 16],
    /// The winning nonce.
    pub nonce: u64,
}

/// The three logical instruction kinds one mining submission is built from.
#[derive(Clone, Copy, Debug, PartialEq)]
pub enum MineInstruction {
    /// Authorization naming the acting account.
    Auth,
    /// Optional epoch reset.
    Reset,
    /// The mine instruction carrying the solution and the selected bus.
    Mine { bus_id: u64, solution: SearchSolution },
}

/// The fixed instruction order of one submission: authorization first, the
/// reset only when included, the mine instruction last.
pub open spec fn shaped_ixs(solution: SearchSolution, bus_id: u64, include_reset: bool) -> Seq<
    MineInstruction,
> {
    if include_reset {
        seq![
            MineInstruction::Auth,
            MineInstruction::Reset,
            MineInstruction::Mine { bus_id, solution },
        ]
    } else {
        seq![MineInstruction::Auth, MineInstruction::Mine { bus_id, solution }]
    }
}

/// The additive compute-budget policy: the baseline, plus the fixed
/// increment exactly when the reset instruction is included.
pub open spec fn shaped_budget(include_reset: bool) -> u64 {
    if include_reset {
        (BASE_COMPUTE_BUDGET + RESET_COMPUTE_INCREMENT) as u64
    } else {
        BASE_COMPUTE_BUDGET
    }
}

/// Assembles the instruction sequence and compute budget for one cycle's
/// submission; an inert descriptor, nothing is signed or sent here.
pub fn shape(solution: &SearchSolution, bus_id: u64, include_reset: bool) -> (r: (
    Vec<MineInstruction>,
    u64,
))
    ensures
        r.0@ == shaped_ixs(*solution, bus_id, include_reset),
        r.1 == shaped_budget(include_reset),
{
    let mut ixs: Vec<MineInstruction> = Vec::new();
    let mut compute_budget: u64 = BASE_COMPUTE_BUDGET;
    ixs.push(MineInstruction::Auth);
    if include_reset {
        compute_budget = compute_budget + RESET_COMPUTE_INCREMENT;
        ixs.push(MineInstruction::Reset);
    }
    ixs.push(MineInstruction::Mine { bus_id, solution: *solution });
    proof {
        assert(ixs@ =~= shaped_ixs(*solution, bus_id, include_reset));
    }
    (ixs, compute_budget)
}

} // verus!

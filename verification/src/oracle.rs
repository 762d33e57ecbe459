use vstd::prelude::*;

verus! {

/// Scratch memory for the equix solver; opaque, reused across evaluations.
#[verifier::external_type_specification]
#[verifier::external_body]
pub struct ExSolverMemory(drillx::equix::SolverMemory);

/// Relies on equix::SolverMemory::new: fresh solver scratch memory. The
/// value is opaque; nothing is stated of it.
#[verifier::external_body]
pub(crate) fn new_solver_memory() -> drillx::equix::SolverMemory {
    drillx::equix::SolverMemory::new()
}

/// The two byte outputs of one oracle evaluation: the equix digest and the
/// keccak hash derived from it.
pub struct OracleOutput {
    /// 16-byte equix digest.
    pub digest: [u8; 16],
    /// 32-byte keccak hash over the sorted digest and the nonce.
    pub hash: [u8; 32],
}

/// What `drillx::hash_with_memory` returns for a challenge and nonce: `None`
/// when the seed admits no equix solution, otherwise the digest and hash
/// byte strings. A deterministic function of its arguments alone.
pub uninterp spec fn oracle_bytes_of(challenge: Seq<u8>, nonce: u64) -> Option<(Seq<u8>, Seq<u8>)>;

/// Relies on drillx::hash_with_memory: deterministic in the challenge and
/// nonce bytes (the scratch memory only carries allocations); returns the
/// first equix solution's digest and the keccak hash over it, or an error
/// for a nonce whose seed admits no solution.
#[verifier::external_body]
pub(crate) fn oracle_eval(
    memory: &mut drillx::equix::SolverMemory,
    challenge: &[u8; 32],
    nonce: u64,
) -> (r: Option<OracleOutput>)
    ensures
        match r {
            Some(o) => oracle_bytes_of(challenge@, nonce) == Some((o.digest@, o.hash@)),
            None => oracle_bytes_of(challenge@, nonce) is None,
        },
{
    match drillx::hash_with_memory(memory, challenge, &nonce.to_le_bytes()) {
        Ok(hx) => Some(OracleOutput { digest: hx.d, hash: hx.h }),
        Err(_) => None,
    }
}

} // verus!

use vstd::prelude::*;
use crate::clock::duration_secs;
use crate::clock::instant_elapsed;
use crate::clock::instant_now;
use crate::oracle::new_solver_memory;
use crate::oracle::oracle_bytes_of;
use crate::oracle::oracle_eval;

verus! {

/// A candidate the search engine weighs: a nonce, the oracle outputs for
/// it, and the difficulty derived from the hash.
#[derive(Clone, Copy, Debug)]
pub struct Candidate {
    /// The nonce that was evaluated.
    pub nonce: u64,
    /// 16-byte equix digest the oracle produced.
    pub digest: [u8; 16],
    /// 32-byte hash the difficulty is derived from.
    pub hash: [u8; 32],
    /// Count of leading zero bits of the hash; higher is strictly better.
    pub difficulty: u32,
}

/// Spec-level image of a candidate, with the outputs as byte sequences.
pub ghost struct CandidateModel {
    pub nonce: u64,
    pub digest: Seq<u8>,
    pub hash: Seq<u8>,
    pub difficulty: u32,
}

impl View for Candidate {
    type V = CandidateModel;

    open spec fn view(&self) -> CandidateModel {
        CandidateModel {
            nonce: self.nonce,
            digest: self.digest@,
            hash: self.hash@,
            difficulty: self.difficulty,
        }
    }
}

/// Leading zero bits of one byte.
pub open spec fn byte_leading_zeros(b: u8) -> u32 {
    if b >= 0x80 {
        0
    } else if b >= 0x40 {
        1
    } else if b >= 0x20 {
        2
    } else if b >= 0x10 {
        3
    } else if b >= 0x08 {
        4
    } else if b >= 0x04 {
        5
    } else if b >= 0x02 {
        6
    } else if b >= 0x01 {
        7
    } else {
        8
    }
}

/// Leading zero bits of a byte string, read left to right.
pub open spec fn leading_zero_bits(s: Seq<u8>) -> nat
    decreases s.len(),
{
    if s.len() == 0 {
        0
    } else if s[0] == 0 {
        (8 + leading_zero_bits(s.drop_first())) as nat
    } else {
        byte_leading_zeros(s[0]) as nat
    }
}

/// A run of `k` zero bytes followed by the end or a nonzero byte pins
/// `leading_zero_bits` down exactly.
proof fn lemma_leading_zero_bits_exact(s: Seq<u8>, k: int)
    requires
        0 <= k <= s.len(),
        forall|j: int| 0 <= j < k ==> s[j] == 0,
        k < s.len() ==> s[k] != 0,
    ensures
        k == s.len() ==> leading_zero_bits(s) == 8 * k,
        k < s.len() ==> leading_zero_bits(s) == 8 * k + byte_leading_zeros(s[k]),
    decreases k,
{
    if k == 0 {
        if s.len() != 0 {
            assert(s[0] != 0);
        }
    } else {
        assert(s[0] == 0);
        lemma_leading_zero_bits_exact(s.drop_first(), k - 1);
    }
}

/// Leading zero bits of one byte, computed by range tests.
fn byte_lz(b: u8) -> (r: u32)
    ensures
        r == byte_leading_zeros(b),
{
    if b >= 0x80 {
        0
    } else if b >= 0x40 {
        1
    } else if b >= 0x20 {
        2
    } else if b >= 0x10 {
        3
    } else if b >= 0x08 {
        4
    } else if b >= 0x04 {
        5
    } else if b >= 0x02 {
        6
    } else if b >= 0x01 {
        7
    } else {
        8
    }
}

/// The difficulty score of a 32-byte hash: its count of leading zero bits.
pub fn count_leading_zero_bits(hash: &[u8; 32]) -> (r: u32)
    ensures
        r == leading_zero_bits(hash@),
{
    let mut k: usize = 0;
    while k < 32
        invariant
            0 <= k <= 32,
            hash@.len() == 32,
            forall|j: int| 0 <= j < k ==> hash@[j] == 0,
        decreases 32 - k,
    {
        let b = *vstd::array::array_index_get(hash, k);
        if b != 0 {
            proof {
                lemma_leading_zero_bits_exact(hash@, k as int);
            }
            return 8 * (k as u32) + byte_lz(b);
        }
        k = k + 1;
    }
    proof {
        lemma_leading_zero_bits_exact(hash@, 32);
    }
    256
}

/// The candidate the oracle yields at a nonce: the named drillx outputs
/// together with the difficulty derived from the hash bytes.
pub open spec fn oracle_candidate_model(challenge: Seq<u8>, nonce: u64) -> Option<CandidateModel> {
    match oracle_bytes_of(challenge, nonce) {
        Some(p) => Some(
            CandidateModel {
                nonce,
                digest: p.0,
                hash: p.1,
                difficulty: leading_zero_bits(p.1) as u32,
            },
        ),
        None => None,
    }
}

/// Evaluates the hash oracle at one nonce: the drillx outputs with their
/// difficulty, or `None` for a nonce the oracle cannot solve.
pub fn oracle_candidate(
    memory: &mut drillx::equix::SolverMemory,
    challenge: &[u8; 32],
    nonce: u64,
) -> (r: Option<Candidate>)
    ensures
        match r {
            Some(c) => oracle_candidate_model(challenge@, nonce) == Some(c@),
            None => oracle_candidate_model(challenge@, nonce) is None,
        },
{
    match oracle_eval(memory, challenge, nonce) {
        Some(o) => {
            let difficulty = count_leading_zero_bits(&o.hash);
            Some(Candidate { nonce, digest: o.digest, hash: o.hash, difficulty })
        },
        None => None,
    }
}

/// The content of the best-result cell before any candidate was offered:
/// nonce 0, all-zero outputs, difficulty 0.
pub open spec fn initial_model() -> CandidateModel {
    CandidateModel {
        nonce: 0,
        digest: Seq::new(16, |i: int| 0u8),
        hash: Seq::new(32, |i: int| 0u8),
        difficulty: 0,
    }
}

impl Candidate {
    /// The starting value of the best-result cell.
    pub fn initial() -> (r: Candidate)
        ensures
            r@ == initial_model(),
    {
        let r = Candidate { nonce: 0, digest: [0u8; 16], hash: [0u8; 32], difficulty: 0 };
        proof {
            assert(r@.digest =~= initial_model().digest);
            assert(r@.hash =~= initial_model().hash);
        }
        r
    }
}

/// One update of the best cell: a candidate with strictly greater
/// difficulty replaces the whole tuple; a tie or less leaves it unchanged,
/// so the first writer of a difficulty wins.
pub open spec fn offer_model(best: CandidateModel, c: CandidateModel) -> CandidateModel {
    if c.difficulty > best.difficulty {
        c
    } else {
        best
    }
}

/// Whole-tuple, first-writer-wins update of the best-result cell.
pub fn offer(best: &mut Candidate, c: &Candidate)
    ensures
        final(best)@ == offer_model(old(best)@, c@),
{
    if c.difficulty > best.difficulty {
        *best = *c;
    }
}

/// The best cell after a sequence of offers, in order.
pub open spec fn fold_offers(best: CandidateModel, s: Seq<CandidateModel>) -> CandidateModel
    decreases s.len(),
{
    if s.len() == 0 {
        best
    } else {
        fold_offers(offer_model(best, s[0]), s.drop_first())
    }
}

/// After any sequence of offers the cell dominates every offered candidate,
/// its difficulty never drops, and its content is the start value or one of
/// the offered candidates — no offer is lost and none is invented.
pub proof fn lemma_fold_offers_props(best: CandidateModel, s: Seq<CandidateModel>)
    ensures
        fold_offers(best, s).difficulty >= best.difficulty,
        forall|i: int| 0 <= i < s.len() ==> fold_offers(best, s).difficulty >= s[i].difficulty,
        fold_offers(best, s) == best || exists|i: int|
            0 <= i < s.len() && fold_offers(best, s) == s[i],
    decreases s.len(),
{
    if s.len() > 0 {
        let best1 = offer_model(best, s[0]);
        lemma_fold_offers_props(best1, s.drop_first());
        assert(forall|i: int| 1 <= i < s.len() ==> s.drop_first()[i - 1] == s[i]);
        let r = fold_offers(best, s);
        if r != best {
            if r == best1 {
                assert(r == s[0]);
            } else {
                let j = choose|j: int|
                    0 <= j < s.drop_first().len() && fold_offers(best1, s.drop_first())
                        == s.drop_first()[j];
                assert(r == s[j + 1]);
            }
        }
    }
}

/// The difficulty a sequence of offers settles on does not depend on the
/// order of the offers: any reordering yields the same maximum.
pub proof fn lemma_fold_offers_order_independent(
    best: CandidateModel,
    s1: Seq<CandidateModel>,
    s2: Seq<CandidateModel>,
)
    requires
        s1.to_multiset() == s2.to_multiset(),
    ensures
        fold_offers(best, s1).difficulty == fold_offers(best, s2).difficulty,
{
    broadcast use vstd::seq_lib::group_seq_properties;

    lemma_fold_offers_props(best, s1);
    lemma_fold_offers_props(best, s2);
    let r1 = fold_offers(best, s1);
    let r2 = fold_offers(best, s2);
    if r1 != best {
        let i = choose|i: int| 0 <= i < s1.len() && r1 == s1[i];
        s1.to_multiset_ensures();
        s2.to_multiset_ensures();
        assert(s1.contains(s1[i]));
        assert(s2.to_multiset().count(s1[i]) > 0);
        assert(s2.contains(s1[i]));
        let j = choose|j: int| 0 <= j < s2.len() && s2[j] == s1[i];
        assert(r2.difficulty >= s2[j].difficulty);
    }
    if r2 != best {
        let i = choose|i: int| 0 <= i < s2.len() && r2 == s2[i];
        s1.to_multiset_ensures();
        s2.to_multiset_ensures();
        assert(s2.contains(s2[i]));
        assert(s1.to_multiset().count(s2[i]) > 0);
        assert(s1.contains(s2[i]));
        let j = choose|j: int| 0 <= j < s1.len() && s1[j] == s2[i];
        assert(r1.difficulty >= s1[j].difficulty);
    }
}

/// The best cell after one worker has evaluated the first `m` nonces of its
/// range in order, offering each candidate the oracle yields.
pub open spec fn best_after(challenge: Seq<u8>, start: u64, m: nat) -> CandidateModel
    decreases m,
{
    if m == 0 {
        initial_model()
    } else {
        let prev = best_after(challenge, start, (m - 1) as nat);
        match oracle_candidate_model(challenge, (start + m - 1) as u64) {
            Some(c) => offer_model(prev, c),
            None => prev,
        }
    }
}

/// A worker's result dominates every candidate it evaluated, and is the
/// initial cell or one of those candidates.
pub proof fn lemma_best_after_dominates(challenge: Seq<u8>, start: u64, m: nat)
    requires
        start + m <= u64::MAX + 1,
    ensures
        forall|k: nat|
            k < m ==> ((#[trigger] oracle_candidate_model(challenge, (start + k) as u64)) matches Some(
                c,
            ) ==> best_after(challenge, start, m).difficulty >= c.difficulty),
        best_after(challenge, start, m) == initial_model() || exists|k: nat|
            k < m && #[trigger] oracle_candidate_model(challenge, (start + k) as u64) == Some(
                best_after(challenge, start, m),
            ),
    decreases m,
{
    if m > 0 {
        lemma_best_after_dominates(challenge, start, (m - 1) as nat);
    }
}

/// The difficulty the oracle yields at a nonce, taking zero for a nonce it
/// cannot solve.
pub open spec fn oracle_difficulty(challenge: Seq<u8>, nonce: u64) -> u32 {
    match oracle_candidate_model(challenge, nonce) {
        Some(c) => c.difficulty,
        None => 0,
    }
}

/// The cycle's reduced result dominates every candidate any worker
/// evaluated: when each worker's result is the best of the prefix it
/// walked, the merged cell's difficulty is at least the difficulty the
/// oracle yielded at any nonce of any of those prefixes.
pub proof fn lemma_cycle_result_dominates(
    challenge: Seq<u8>,
    starts: Seq<u64>,
    counts: Seq<nat>,
    results: Seq<CandidateModel>,
)
    requires
        results.len() == starts.len(),
        results.len() == counts.len(),
        forall|i: int| 0 <= i < results.len() ==> starts[i] + counts[i] <= u64::MAX + 1,
        forall|i: int|
            0 <= i < results.len() ==> results[i] == best_after(
                challenge,
                starts[i],
                #[trigger] counts[i],
            ),
    ensures
        forall|i: int, k: nat|
            0 <= i < results.len() && k < counts[i] ==> fold_offers(
                initial_model(),
                results,
            ).difficulty >= #[trigger] oracle_difficulty(challenge, (starts[i] + k) as u64),
{
    lemma_fold_offers_props(initial_model(), results);
    assert forall|i: int, k: nat| 0 <= i < results.len() && k < counts[i] implies fold_offers(
        initial_model(),
        results,
    ).difficulty >= #[trigger] oracle_difficulty(challenge, (starts[i] + k) as u64) by {
        lemma_best_after_dominates(challenge, starts[i], counts[i]);
        assert(results[i].difficulty >= oracle_difficulty(challenge, (starts[i] + k) as u64));
        assert(fold_offers(initial_model(), results).difficulty >= results[i].difficulty);
    }
}

/// Searches nonces upward from `start_nonce`, one by one, keeping the best
/// candidate first-writer-wins, until its private wall-clock timer exceeds
/// `budget_secs` (checked after each step) or the nonce space ends. At
/// least one nonce is always evaluated; the result is exactly the best of
/// the prefix evaluated.
pub fn search_worker(challenge: &[u8; 32], start_nonce: u64, budget_secs: u64) -> (r: Candidate)
    ensures
        exists|m: nat|
            1 <= m && start_nonce + m <= u64::MAX + 1 && r@ == #[trigger] best_after(
                challenge@,
                start_nonce,
                m,
            ),
{
    let mut memory = new_solver_memory();
    let timer = instant_now();
    let mut best = Candidate::initial();
    let mut nonce = start_nonce;
    let ghost mut m: nat = 0;
    loop
        invariant_except_break
            start_nonce + m == nonce,
            best@ == best_after(challenge@, start_nonce, m),
        ensures
            exists|mm: nat|
                1 <= mm && start_nonce + mm <= u64::MAX + 1 && best@ == #[trigger] best_after(
                    challenge@,
                    start_nonce,
                    mm,
                ),
        decreases u64::MAX - nonce,
    {
        match oracle_candidate(&mut memory, challenge, nonce) {
            Some(c) => offer(&mut best, &c),
            None => {},
        }
        proof {
            m = m + 1;
            assert(best@ == best_after(challenge@, start_nonce, m));
        }
        if nonce == u64::MAX {
            break;
        }
        nonce = nonce + 1;
        if duration_secs(instant_elapsed(&timer)) >= budget_secs {
            break;
        }
    }
    best
}

/// Reduces per-worker results to the cycle's single best candidate by
/// offering each into a fresh cell, in order.
pub fn merge_candidates(results: &Vec<Candidate>) -> (r: Candidate)
    ensures
        r@ == fold_offers(initial_model(), results@.map_values(|c: Candidate| c@)),
{
    let ghost models = results@.map_values(|c: Candidate| c@);
    proof {
        assert(models.skip(0) =~= models);
    }
    let mut best = Candidate::initial();
    let mut k: usize = 0;
    while k < results.len()
        invariant
            0 <= k <= results@.len(),
            models == results@.map_values(|c: Candidate| c@),
            fold_offers(best@, models.skip(k as int)) == fold_offers(initial_model(), models),
        decreases results.len() - k,
    {
        proof {
            assert(models.skip(k as int)[0] == models[k as int]);
            assert(models.skip(k as int).drop_first() =~= models.skip(k + 1));
        }
        offer(&mut best, &results[k]);
        k = k + 1;
    }
    best
}

/// Size of each worker's contiguous nonce sub-range: the 64-bit nonce space
/// divided evenly by the worker count, truncated.
pub open spec fn chunk_size(cores: u64) -> int {
    u64::MAX as int / cores as int
}

/// First nonce of the worker at `index` out of `cores` workers.
pub open spec fn worker_start(index: int, cores: u64) -> int {
    chunk_size(cores) * index
}

/// First nonce of one worker's sub-range. Workers stop on their private
/// timer, not at the end of the sub-range, so a long-running worker may
/// walk past its range end; the ranges partition only the starting layout.
pub fn worker_start_nonce(index: u64, cores: u64) -> (r: u64)
    requires
        1 <= cores,
        index < cores,
    ensures
        r == worker_start(index as int, cores),
{
    let chunk = u64::MAX / cores;
    proof {
        let c = chunk_size(cores);
        let rem = u64::MAX as int % cores as int;
        vstd::arithmetic::div_mod::lemma_fundamental_div_mod(u64::MAX as int, cores as int);
        vstd::arithmetic::div_mod::lemma_mod_bound(u64::MAX as int, cores as int);
        assert(0 <= c * (index as int) && c * (index as int) <= u64::MAX as int)
            by (nonlinear_arith)
            requires
                u64::MAX as int == (cores as int) * c + rem,
                0 <= rem < cores as int,
                1 <= cores as int,
                0 <= index as int,
                (index as int) < cores as int,
        ;
    }
    chunk * index
}

/// The sub-ranges of two distinct workers are disjoint: the earlier range
/// ends no later than the later one begins.
pub proof fn lemma_worker_ranges_disjoint(cores: u64, i: int, j: int)
    requires
        1 <= cores,
        0 <= i < j < cores,
    ensures
        worker_start(i, cores) + chunk_size(cores) <= worker_start(j, cores),
{
    let c = chunk_size(cores);
    let rem = u64::MAX as int % cores as int;
    vstd::arithmetic::div_mod::lemma_fundamental_div_mod(u64::MAX as int, cores as int);
    vstd::arithmetic::div_mod::lemma_mod_bound(u64::MAX as int, cores as int);
    assert(c * i + c <= c * j) by (nonlinear_arith)
        requires
            u64::MAX as int == (cores as int) * c + rem,
            0 <= rem < cores as int,
            1 <= cores as int,
            0 <= i,
            i < j,
            j < cores as int,
    ;
}

/// Every nonce below `cores * floor(u64::MAX / cores)` falls in exactly one
/// worker's sub-range; the tail above that bound is not in any starting
/// range and is reached only by a worker overrunning its own.
pub proof fn lemma_worker_ranges_cover(cores: u64, n: u64)
    requires
        1 <= cores,
        n < chunk_size(cores) * cores,
    ensures
        exists|i: int|
            0 <= i < cores && #[trigger] worker_start(i, cores) <= n < worker_start(i, cores)
                + chunk_size(cores),
{
    let c = chunk_size(cores);
    let rem = u64::MAX as int % cores as int;
    vstd::arithmetic::div_mod::lemma_fundamental_div_mod(u64::MAX as int, cores as int);
    vstd::arithmetic::div_mod::lemma_mod_bound(u64::MAX as int, cores as int);
    assert(c >= 1) by (nonlinear_arith)
        requires
            u64::MAX as int == (cores as int) * c + rem,
            0 <= rem < cores as int,
            1 <= cores as int,
            cores as int <= u64::MAX as int,
    ;
    let wi = n as int / c;
    vstd::arithmetic::div_mod::lemma_fundamental_div_mod(n as int, c);
    vstd::arithmetic::div_mod::lemma_mod_bound(n as int, c);
    let nrem = n as int % c;
    assert(0 <= wi < cores as int && c * wi <= n && n < c * wi + c) by (nonlinear_arith)
        requires
            n as int == c * wi + nrem,
            0 <= nrem < c,
            1 <= c,
            0 <= n as int,
            n < c * (cores as int),
    ;
    assert(worker_start(wi, cores) <= n < worker_start(wi, cores) + chunk_size(cores));
}

} // verus!

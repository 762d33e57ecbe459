use vstd::prelude::*;

verus! {

/// Multiplier of the running-state fold over the input bytes.
pub const HASH_FOLD_MULTIPLIER: u64 = 0x1bd11bdaa9fc1a22;

/// Starting state of the running-state fold.
pub const HASH_FOLD_SEED: u64 = 0x1234567890abcdef;

/// One fold step: multiply the state by the fixed multiplier and add the
/// next input byte, both modulo 2^64.
pub open spec fn fold_step(state: u64, byte: u8) -> u64 {
    vstd::wrapping::u64_specs::wrapping_add(
        vstd::wrapping::u64_specs::wrapping_mul(state, HASH_FOLD_MULTIPLIER),
        byte as u64,
    )
}

/// The 64-bit state after folding every byte of `s`, starting from the seed.
pub open spec fn fold_state(s: Seq<u8>) -> u64
    decreases s.len(),
{
    if s.len() == 0 {
        HASH_FOLD_SEED
    } else {
        fold_step(fold_state(s.drop_last()), s.last())
    }
}

/// Custom hash: fold the input into a 64-bit state, then write that state
/// little-endian into the first 8 bytes of a 32-byte output; the remaining
/// 24 bytes are zero.
pub fn custom_hash(input: &[u8]) -> (r: [u8; 32])
    ensures
        r@.len() == 32,
        r@[0] == (fold_state(input@) & 0xff) as u8,
        r@[1] == ((fold_state(input@) >> 8) & 0xff) as u8,
        r@[2] == ((fold_state(input@) >> 16) & 0xff) as u8,
        r@[3] == ((fold_state(input@) >> 24) & 0xff) as u8,
        r@[4] == ((fold_state(input@) >> 32) & 0xff) as u8,
        r@[5] == ((fold_state(input@) >> 40) & 0xff) as u8,
        r@[6] == ((fold_state(input@) >> 48) & 0xff) as u8,
        r@[7] == ((fold_state(input@) >> 56) & 0xff) as u8,
        forall|i: int| 8 <= i < 32 ==> r@[i] == 0u8,
{
    let mut state: u64 = HASH_FOLD_SEED;
    let n: usize = input.len();
    let mut k: usize = 0;
    while k < n
        invariant
            0 <= k <= n,
            n == input@.len(),
            state == fold_state(input@.take(k as int)),
        decreases n - k,
    {
        proof {
            assert(input@.take(k + 1).drop_last() =~= input@.take(k as int));
            assert(input@.take(k + 1).last() == input@[k as int]);
        }
        state = state.wrapping_mul(HASH_FOLD_MULTIPLIER).wrapping_add(input[k] as u64);
        k = k + 1;
    }
    proof {
        assert(input@.take(n as int) =~= input@);
    }
    let mut r: [u8; 32] = [0u8; 32];
    r[0] = (state & 0xff) as u8;
    r[1] = ((state >> 8) & 0xff) as u8;
    r[2] = ((state >> 16) & 0xff) as u8;
    r[3] = ((state >> 24) & 0xff) as u8;
    r[4] = ((state >> 32) & 0xff) as u8;
    r[5] = ((state >> 40) & 0xff) as u8;
    r[6] = ((state >> 48) & 0xff) as u8;
    r[7] = ((state >> 56) & 0xff) as u8;
    r
}

/// The number of leading zero bytes of `s`.
pub open spec fn leading_zero_bytes(s: Seq<u8>) -> nat
    decreases s.len(),
{
    if s.len() == 0 {
        0
    } else if s[0] == 0 {
        1 + leading_zero_bytes(s.drop_first())
    } else {
        0
    }
}

/// A run of `k` zero bytes that is either the whole sequence or ends at a
/// nonzero byte pins down `leading_zero_bytes` exactly.
proof fn lemma_leading_zero_bytes_exact(s: Seq<u8>, k: int)
    requires
        0 <= k <= s.len(),
        forall|j: int| 0 <= j < k ==> s[j] == 0,
        k < s.len() ==> s[k] != 0,
    ensures
        leading_zero_bytes(s) == k,
    decreases k,
{
    if k == 0 {
        if s.len() != 0 {
            assert(s[0] != 0);
        }
    } else {
        assert(s[0] == 0);
        lemma_leading_zero_bytes_exact(s.drop_first(), k - 1);
    }
}

/// Difficulty of a 32-byte hash under the custom scheme: the count of its
/// leading zero bytes.
pub fn calculate_difficulty(hash: &[u8; 32]) -> (r: u32)
    ensures
        r == leading_zero_bytes(hash@),
{
    let mut k: usize = 0;
    while k < 32
        invariant
            0 <= k <= 32,
            hash@.len() == 32,
            forall|j: int| 0 <= j < k ==> hash@[j] == 0,
        decreases 32 - k,
    {
        if *vstd::array::array_index_get(hash, k) != 0 {
            proof {
                lemma_leading_zero_bytes_exact(hash@, k as int);
            }
            return k as u32;
        }
        k = k + 1;
    }
    proof {
        lemma_leading_zero_bytes_exact(hash@, 32);
    }
    32
}

} // verus!

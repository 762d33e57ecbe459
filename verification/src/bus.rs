use vstd::prelude::*;
use crate::rng::random_below;

verus! {

/// Number of reward-bus accounts the ledger maintains.
pub const BUS_COUNT: u64 = 8;

/// Snapshot of one reward-bus account: its identity and current rewards.
#[derive(Clone, Copy, PartialEq, Eq, Structural, Debug)]
pub struct BusSnapshot {
    /// Bus identity, an index below `BUS_COUNT`.
    pub id: u64,
    /// Reward balance the bus currently carries.
    pub rewards: u64,
}

/// One scan step of the running maximum: a readable snapshot with strictly
/// more rewards than seen so far replaces the leader; ties keep the earlier
/// leader.
pub open spec fn select_step(acc: (u64, u64), entry: Option<BusSnapshot>) -> (u64, u64) {
    match entry {
        Some(b) => if b.rewards > acc.1 {
            (b.id, b.rewards)
        } else {
            acc
        },
        None => acc,
    }
}

/// Left fold of `select_step` over the snapshots.
pub open spec fn select_fold(acc: (u64, u64), s: Seq<Option<BusSnapshot>>) -> (u64, u64)
    decreases s.len(),
{
    if s.len() == 0 {
        acc
    } else {
        select_fold(select_step(acc, s[0]), s.drop_first())
    }
}

/// The `(identity, rewards)` pair a scan of the snapshots settles on,
/// starting from bus 0 with no rewards seen.
pub open spec fn selected_bus(s: Seq<Option<BusSnapshot>>) -> (u64, u64) {
    select_fold((0u64, 0u64), s)
}

/// Every readable snapshot an id below `BUS_COUNT`.
pub open spec fn busses_wf(s: Seq<Option<BusSnapshot>>) -> bool {
    forall|i: int|
        0 <= i < s.len() ==> ((#[trigger] s[i]) matches Some(b) ==> b.id < BUS_COUNT)
}

/// The settled rewards dominate every readable snapshot, and a leader other
/// than the starting accumulator is one of the snapshots.
pub proof fn lemma_select_fold_max(acc: (u64, u64), s: Seq<Option<BusSnapshot>>)
    ensures
        forall|i: int|
            0 <= i < s.len() ==> ((#[trigger] s[i]) matches Some(b) ==> select_fold(acc, s).1
                >= b.rewards),
        select_fold(acc, s) == acc || exists|i: int|
            0 <= i < s.len() && ((#[trigger] s[i]) matches Some(b) && b.id == select_fold(acc, s).0
                && b.rewards == select_fold(acc, s).1),
        select_fold(acc, s).1 >= acc.1,
    decreases s.len(),
{
    if s.len() > 0 {
        let acc1 = select_step(acc, s[0]);
        lemma_select_fold_max(acc1, s.drop_first());
        assert(forall|i: int| 1 <= i < s.len() ==> s.drop_first()[i - 1] == s[i]);
        let r = select_fold(acc, s);
        assert(r == select_fold(acc1, s.drop_first()));
        if r != acc {
            if r == acc1 {
                assert(acc1 != acc);
                assert(s[0] matches Some(b) && b.id == r.0 && b.rewards == r.1);
            } else {
                let j = choose|j: int|
                    0 <= j < s.drop_first().len() && ((#[trigger] s.drop_first()[j]) matches Some(
                        b,
                    ) && b.id == r.0 && b.rewards == r.1);
                assert(s[j + 1] matches Some(b) && b.id == r.0 && b.rewards == r.1);
            }
        }
    }
}

/// Linear scan for the bus with the largest reward balance; ties keep the
/// earliest-seen maximum, and an unreadable entry is skipped. Returns the
/// identity the scan settles on (bus 0 when nothing beats zero rewards).
pub fn select_bus(busses: &Vec<Option<BusSnapshot>>) -> (r: u64)
    requires
        busses_wf(busses@),
    ensures
        r == selected_bus(busses@).0,
        r < BUS_COUNT,
{
    let ghost all = busses@;
    proof {
        assert(all.skip(0) =~= all);
    }
    let mut top_id: u64 = 0;
    let mut top_rewards: u64 = 0;
    let mut k: usize = 0;
    while k < busses.len()
        invariant
            0 <= k <= all.len(),
            all == busses@,
            busses_wf(all),
            top_id < BUS_COUNT,
            select_fold((top_id, top_rewards), all.skip(k as int)) == selected_bus(all),
        decreases busses.len() - k,
    {
        proof {
            assert(all.skip(k as int)[0] == all[k as int]);
            assert(all.skip(k as int).drop_first() =~= all.skip(k + 1));
        }
        match &busses[k] {
            Some(b) => {
                if b.rewards > top_rewards {
                    top_id = b.id;
                    top_rewards = b.rewards;
                }
            },
            None => {},
        }
        k = k + 1;
    }
    proof {
        assert(all.skip(all.len() as int) =~= Seq::<Option<BusSnapshot>>::empty());
    }
    top_id
}

/// Chooses the submission target: the fullest readable bus when the bulk
/// read succeeded, otherwise a bus drawn uniformly at random from the fixed
/// identity set.
pub fn find_bus(read: &Option<Vec<Option<BusSnapshot>>>) -> (r: u64)
    requires
        read matches Some(busses) ==> busses_wf(busses@),
    ensures
        read matches Some(busses) ==> r == selected_bus(busses@).0,
        r < BUS_COUNT,
{
    match read {
        Some(busses) => select_bus(busses),
        None => random_below(BUS_COUNT),
    }
}

} // verus!

//! The milestone ledger of an escrow: a bounded, ordered list of portions of
//! the total amount, each verified and paid on its own.

use vstd::prelude::*;

verus! {

/// The most milestones one escrow may hold.
pub const MAX_MILESTONES: usize = 10;

#[derive(Clone, Copy, Debug)]
pub struct Milestone {
    /// Position of the milestone in its ledger.
    pub id: u8,
    pub amount: u64,
    pub verified: bool,
    pub released: bool,
    pub verify_ts: i64,
    pub evidence_hash: [u8; 32],
}

/// The sum of the amounts of `ms`.
pub open spec fn milestone_total(ms: Seq<Milestone>) -> int
    decreases ms.len(),
{
    if ms.len() == 0 {
        0
    } else {
        milestone_total(ms.drop_last()) + ms.last().amount
    }
}

/// A prefix of a ledger never sums to more than the ledger.
pub proof fn lemma_milestone_total_prefix(ms: Seq<Milestone>, k: int)
    requires
        0 <= k <= ms.len(),
    ensures
        0 <= milestone_total(ms.take(k)) <= milestone_total(ms),
    decreases ms.len(),
{
    if ms.len() > 0 {
        if k == ms.len() {
            assert(ms.take(k) =~= ms);
            lemma_milestone_total_prefix(ms.drop_last(), k - 1);
        } else {
            assert(ms.drop_last().take(k) =~= ms.take(k));
            lemma_milestone_total_prefix(ms.drop_last(), k);
        }
    }
}

/// The sum over a prefix one longer adds the amount at its end.
pub proof fn lemma_milestone_total_step(ms: Seq<Milestone>, k: int)
    requires
        0 <= k < ms.len(),
    ensures
        milestone_total(ms.take(k + 1)) == milestone_total(ms.take(k)) + ms[k].amount,
{
    assert(ms.take(k + 1).drop_last() =~= ms.take(k));
}

/// Changing a milestone's flags keeps the ledger's total.
pub proof fn lemma_milestone_total_update(ms: Seq<Milestone>, i: int, m: Milestone)
    requires
        0 <= i < ms.len(),
        m.amount == ms[i].amount,
    ensures
        milestone_total(ms.update(i, m)) == milestone_total(ms),
    decreases ms.len(),
{
    let u = ms.update(i, m);
    if i == ms.len() - 1 {
        assert(u.drop_last() =~= ms.drop_last());
    } else {
        assert(u.drop_last() =~= ms.drop_last().update(i, m));
        lemma_milestone_total_update(ms.drop_last(), i, m);
    }
}

/// The sum of the amounts of `ms`, when it fits in a `u64`.
pub fn sum_milestones(ms: &Vec<Milestone>) -> (r: Option<u64>)
    ensures
        0 <= milestone_total(ms@),
        milestone_total(ms@) <= u64::MAX ==> r == Some(milestone_total(ms@) as u64),
        milestone_total(ms@) > u64::MAX ==> r is None,
{
    proof {
        lemma_milestone_total_prefix(ms@, 0);
    }
    let mut sum: u64 = 0;
    let mut k: usize = 0;
    while k < ms.len()
        invariant
            k <= ms.len(),
            0 <= milestone_total(ms@),
            sum == milestone_total(ms@.take(k as int)),
        decreases ms.len() - k,
    {
        proof {
            lemma_milestone_total_step(ms@, k as int);
            lemma_milestone_total_prefix(ms@, k as int + 1);
        }
        match sum.checked_add(ms[k].amount) {
            Some(s) => {
                sum = s;
            },
            None => {
                return None;
            },
        }
        k = k + 1;
    }
    assert(ms@.take(ms.len() as int) =~= ms@);
    Some(sum)
}

} // verus!

//! M-of-N quorum counting: how many distinct authenticated callers belong to
//! an escrow's oracle set.

use vstd::prelude::*;
use crate::identity::Identity;

verus! {

/// A caller presented to a quorum-gated operation, with whether the host
/// authenticated it as having consented to this call.
#[derive(Clone, Copy, Debug)]
pub struct Voter {
    pub identity: Identity,
    pub is_signer: bool,
}

/// `id` is a real (non-placeholder) member of the oracle set.
pub open spec fn is_oracle(oracles: Seq<Identity>, id: Identity) -> bool {
    &&& !id.is_zero_spec()
    &&& exists|i: int| 0 <= i < oracles.len() && oracles[i] == id
}

/// `v` is authenticated and a real member of the oracle set.
pub open spec fn is_authenticated_oracle(oracles: Seq<Identity>, v: Voter) -> bool {
    v.is_signer && is_oracle(oracles, v.identity)
}

/// Some voter before position `k` is authenticated with the same identity as
/// the voter at `k`.
pub open spec fn signed_earlier(voters: Seq<Voter>, k: int) -> bool {
    exists|j: int| 0 <= j < k && voters[j].is_signer && voters[j].identity == voters[k].identity
}

/// The voter at position `k` casts a vote: it is authenticated, it is an
/// oracle, and no earlier authenticated voter had the same identity.
pub open spec fn casts_vote(oracles: Seq<Identity>, voters: Seq<Voter>, k: int) -> bool {
    &&& voters[k].is_signer
    &&& is_oracle(oracles, voters[k].identity)
    &&& !signed_earlier(voters, k)
}

/// The number of votes that `voters` cast for an escrow with oracle set
/// `oracles`: each authenticated oracle identity counts once.
pub open spec fn quorum_votes(oracles: Seq<Identity>, voters: Seq<Voter>) -> nat
    decreases voters.len(),
{
    if voters.len() == 0 {
        0
    } else {
        quorum_votes(oracles, voters.drop_last()) + if casts_vote(
            oracles,
            voters,
            voters.len() - 1,
        ) {
            1nat
        } else {
            0nat
        }
    }
}

/// Whether `id` is a non-placeholder member of `oracles`.
fn is_registered_oracle(oracles: &Vec<Identity>, id: &Identity) -> (r: bool)
    ensures
        r == is_oracle(oracles@, *id),
{
    if id.is_zero() {
        return false;
    }
    let mut i: usize = 0;
    while i < oracles.len()
        invariant
            i <= oracles.len(),
            !id.is_zero_spec(),
            forall|j: int| 0 <= j < i ==> oracles@[j] != *id,
        decreases oracles.len() - i,
    {
        if oracles[i] == *id {
            assert(oracles@[i as int] == *id);
            return true;
        }
        i = i + 1;
    }
    false
}

/// Whether a voter before position `k` was authenticated under the same
/// identity as the voter at `k`.
fn has_signed_earlier(voters: &Vec<Voter>, k: usize) -> (r: bool)
    requires
        k < voters.len(),
    ensures
        r == signed_earlier(voters@, k as int),
{
    let mut j: usize = 0;
    while j < k
        invariant
            j <= k < voters.len(),
            forall|i: int|
                0 <= i < j ==> !(voters@[i].is_signer && voters@[i].identity == voters@[k as int].identity),
        decreases k - j,
    {
        if voters[j].is_signer && voters[j].identity == voters[k].identity {
            return true;
        }
        j = j + 1;
    }
    false
}

proof fn lemma_votes_prefix_step(oracles: Seq<Identity>, voters: Seq<Voter>, k: int)
    requires
        0 <= k < voters.len(),
    ensures
        quorum_votes(oracles, voters.take(k + 1)) == quorum_votes(oracles, voters.take(k)) + if casts_vote(
            oracles,
            voters,
            k,
        ) {
            1nat
        } else {
            0nat
        },
{
    let t = voters.take(k + 1);
    assert(t.drop_last() =~= voters.take(k));
    assert(signed_earlier(t, k) == signed_earlier(voters, k)) by {
        if signed_earlier(voters, k) {
            let j = choose|j: int|
                0 <= j < k && voters[j].is_signer && voters[j].identity == voters[k].identity;
            assert(t[j] == voters[j]);
        }
    }
}

/// Counts the votes that `voters` cast for the oracle set `oracles`.
pub fn count_quorum_votes(oracles: &Vec<Identity>, voters: &Vec<Voter>) -> (r: usize)
    ensures
        r == quorum_votes(oracles@, voters@),
{
    let mut votes: usize = 0;
    let mut k: usize = 0;
    while k < voters.len()
        invariant
            k <= voters.len(),
            votes <= k,
            votes == quorum_votes(oracles@, voters@.take(k as int)),
        decreases voters.len() - k,
    {
        proof {
            lemma_votes_prefix_step(oracles@, voters@, k as int);
        }
        if voters[k].is_signer && is_registered_oracle(oracles, &voters[k].identity)
            && !has_signed_earlier(voters, k) {
            votes = votes + 1;
        }
        k = k + 1;
    }
    assert(voters@.take(voters.len() as int) =~= voters@);
    votes
}

/// Voters that are all authenticated, all oracles, and pairwise distinct
/// cast exactly one vote each.
pub proof fn lemma_distinct_oracle_voters_all_count(oracles: Seq<Identity>, voters: Seq<Voter>)
    requires
        forall|k: int| 0 <= k < voters.len() ==> is_authenticated_oracle(oracles, #[trigger] voters[k]),
        forall|j: int, k: int|
            0 <= j < k < voters.len() ==> voters[j].identity != voters[k].identity,
    ensures
        quorum_votes(oracles, voters) == voters.len(),
    decreases voters.len(),
{
    if voters.len() > 0 {
        let rest = voters.drop_last();
        assert forall|k: int| 0 <= k < rest.len() implies is_authenticated_oracle(
            oracles,
            #[trigger] rest[k],
        ) by {
            assert(rest[k] == voters[k]);
        }
        assert forall|j: int, k: int| 0 <= j < k < rest.len() implies rest[j].identity
            != rest[k].identity by {
            assert(rest[j] == voters[j]);
            assert(rest[k] == voters[k]);
        }
        lemma_distinct_oracle_voters_all_count(oracles, rest);
        let last = voters.len() - 1;
        assert(is_authenticated_oracle(oracles, voters[last]));
        assert(!signed_earlier(voters, last));
    }
}

/// A voter whose identity already voted, authenticated, earlier in the list
/// adds no vote: duplicates count once.
pub proof fn lemma_duplicate_voter_counts_once(
    oracles: Seq<Identity>,
    voters: Seq<Voter>,
    extra: Voter,
)
    requires
        exists|j: int|
            0 <= j < voters.len() && voters[j].is_signer && voters[j].identity == extra.identity,
    ensures
        quorum_votes(oracles, voters.push(extra)) == quorum_votes(oracles, voters),
{
    let all = voters.push(extra);
    assert(all.drop_last() =~= voters);
    let j = choose|j: int|
        0 <= j < voters.len() && voters[j].is_signer && voters[j].identity == extra.identity;
    assert(all[j] == voters[j]);
    assert(signed_earlier(all, all.len() - 1));
}

} // verus!

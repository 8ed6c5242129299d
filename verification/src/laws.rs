use vstd::prelude::*;

use crate::identity::Identity;
use crate::ops::{count_matches, share_of};
use crate::state::Pool;

verus! {

/// A list matches an identity zero times exactly when it does not contain
/// it.
pub proof fn lemma_count_zero_iff_absent(s: Seq<Identity>, id: Identity)
    ensures
        count_matches(s, id) == 0 <==> !s.contains(id),
    decreases s.len(),
{
    if s.len() > 0 {
        let s0 = s.drop_last();
        lemma_count_zero_iff_absent(s0, id);
        if s.contains(id) {
            let k = choose|k: int| 0 <= k < s.len() && s[k] == id;
            if k < s.len() - 1 {
                assert(s0[k] == id);
                assert(s0.contains(id));
            }
            assert(count_matches(s, id) > 0);
        } else {
            if s0.contains(id) {
                let k = choose|k: int| 0 <= k < s0.len() && s0[k] == id;
                assert(s[k] == id);
                assert(s.contains(id));
            }
            assert(s.last() != id);
        }
    }
}

/// In a list without duplicates, a contained identity matches exactly
/// once.
proof fn lemma_unique_count(s: Seq<Identity>, id: Identity)
    requires
        forall|i: int, j: int| 0 <= i < j < s.len() ==> s[i] != s[j],
        s.contains(id),
    ensures
        count_matches(s, id) == 1,
    decreases s.len(),
{
    let s0 = s.drop_last();
    if s.last() == id {
        if s0.contains(id) {
            let k = choose|k: int| 0 <= k < s0.len() && s0[k] == id;
            assert(s[k] == id && s[s.len() - 1] == id);
            assert(false);
        }
        lemma_count_zero_iff_absent(s0, id);
    } else {
        let k = choose|k: int| 0 <= k < s.len() && s[k] == id;
        assert(k < s.len() - 1);
        assert(s0[k] == id);
        assert(s0.contains(id));
        assert(forall|i: int, j: int| 0 <= i < j < s0.len() ==> s0[i] != s0[j]);
        lemma_unique_count(s0, id);
    }
}

/// Vote accounting: in a pool whose project list holds no duplicates, an
/// owner the pool lists is matched exactly once per vote call — so each
/// call for it adds one vote and one pledged amount — and an owner the
/// pool does not list is matched not at all, though the pool's aggregate
/// vote count still rises by one per call.
pub proof fn lemma_vote_accounting(pool: Pool, owner: Identity)
    requires
        pool.projects_unique(),
    ensures
        pool.projects@.contains(owner) ==> count_matches(pool.projects@, owner) == 1,
        !pool.projects@.contains(owner) ==> count_matches(pool.projects@, owner) == 0,
{
    lemma_count_zero_iff_absent(pool.projects@, owner);
    if pool.projects@.contains(owner) {
        lemma_unique_count(pool.projects@, owner);
    }
}

/// Distribution truncation: whenever the tally is below the total, the
/// quotient truncates to zero before the multiplication, so the share is
/// zero — never the proportional amount.
pub proof fn lemma_distribution_truncates(votes: u64, total_votes: u64, deposit: u64)
    requires
        votes < total_votes,
    ensures
        share_of(votes, total_votes, deposit) == Some(0u64),
{
    if votes != 0 {
        assert(votes as int / total_votes as int == 0) by {
            vstd::arithmetic::div_mod::lemma_basic_div(votes as int, total_votes as int);
        }
    }
}

/// Distribution by zero votes: a tally of zero always yields a zero share,
/// whatever the total and the deposit — even a zero total.
pub proof fn lemma_zero_votes_zero_share(total_votes: u64, deposit: u64)
    ensures
        share_of(0u64, total_votes, deposit) == Some(0u64),
{
}

/// Overflow guard: with a nonzero tally and no votes recorded in the pool,
/// the division is undefined and the share is no value at all.
pub proof fn lemma_zero_total_votes_fails(votes: u64, deposit: u64)
    requires
        votes != 0,
    ensures
        share_of(votes, 0u64, deposit) is None,
{
}

} // verus!

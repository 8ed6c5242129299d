use vstd::prelude::*;

use crate::identity::Identity;

verus! {

/// The funder's deposited value plus the identities registered to receive a
/// share of it. Created once per creator; only registration appends to it.
pub struct Escrow {
    pub escrow_creator: Identity,
    pub creator_deposit_amount: u64,
    pub total_projects: u8,
    pub project_receiver_addresses: Vec<Identity>,
}

/// The grouping of projects competing for one escrow's distribution, plus
/// aggregate vote bookkeeping.
pub struct Pool {
    pub pool_creator: Identity,
    pub projects: Vec<Identity>,
    pub total_projects: u8,
    pub total_votes: u64,
}

/// A single registered recipient candidate with its own vote and
/// distribution tallies.
pub struct Project {
    pub project_owner: Identity,
    pub project_name: String,
    pub votes_count: u64,
    pub voter_amount: u64,
    pub distributed_amt: u64,
    pub is_added_to_pool: bool,
}

/// A single cast vote. Reserved: no operation in scope populates it.
pub struct Voter {
    pub voter: Identity,
    pub voted_for: Identity,
    pub token_amount: u64,
}

impl Pool {
    /// Each owner identity occurs at most once in the project list.
    pub open spec fn projects_unique(&self) -> bool {
        forall|i: int, j: int|
            0 <= i < j < self.projects@.len() ==> self.projects@[i] != self.projects@[j]
    }

    /// The counter tracks the list, and the list holds no duplicates.
    pub open spec fn well_formed(&self) -> bool {
        &&& self.projects_unique()
        &&& self.projects@.len() == self.total_projects as int
    }
}

/// Registration appends the same identity to both sequences in one step, so
/// an escrow and a pool that grew up together hold identical lists.
pub open spec fn escrow_matches_pool(escrow: Escrow, pool: Pool) -> bool {
    escrow.project_receiver_addresses@ == pool.projects@
}

} // verus!

use vstd::prelude::*;

use crate::address::{derive_project_address, key_matches_derivation};
use crate::errors::SolquadError;
use crate::identity::Identity;
use crate::state::{Escrow, Pool, Project};

verus! {

/// Creates the escrow record for a funder: the deposit is recorded, no
/// receiver is registered yet.
pub fn initialize_escrow(escrow_signer: Identity, amount: u64) -> (escrow_account: Escrow)
    ensures
        escrow_account.escrow_creator == escrow_signer,
        escrow_account.creator_deposit_amount == amount,
        escrow_account.total_projects == 0,
        escrow_account.project_receiver_addresses@.len() == 0,
{
    Escrow {
        escrow_creator: escrow_signer,
        creator_deposit_amount: amount,
        total_projects: 0,
        project_receiver_addresses: Vec::new(),
    }
}

/// Creates the pool record for a creator: no projects, no votes.
pub fn initialize_pool(pool_signer: Identity) -> (pool_account: Pool)
    ensures
        pool_account.pool_creator == pool_signer,
        pool_account.total_projects == 0,
        pool_account.total_votes == 0,
        pool_account.projects@.len() == 0,
        pool_account.well_formed(),
{
    Pool { pool_creator: pool_signer, projects: Vec::new(), total_projects: 0, total_votes: 0 }
}

/// Creates a project record for an owner: all tallies zero, not yet added
/// to any pool.
pub fn initialize_project(project_owner: Identity, name: String) -> (project_account: Project)
    ensures
        project_account.project_owner == project_owner,
        project_account.project_name == name,
        project_account.votes_count == 0,
        project_account.voter_amount == 0,
        project_account.distributed_amt == 0,
        !project_account.is_added_to_pool,
{
    Project {
        project_owner,
        project_name: name,
        votes_count: 0,
        voter_amount: 0,
        distributed_amt: 0,
        is_added_to_pool: false,
    }
}

/// Whether the identity occurs in the list.
pub fn contains_identity(list: &Vec<Identity>, id: &Identity) -> (r: bool)
    ensures
        r == list@.contains(*id),
{
    let mut i: usize = 0;
    while i < list.len()
        invariant
            i <= list@.len(),
            forall|j: int| 0 <= j < i ==> list@[j] != *id,
        decreases list@.len() - i,
    {
        if list[i].equals(id) {
            return true;
        }
        i += 1;
    }
    proof {
        assert(!list@.contains(*id));
    }
    false
}

/// Links a project to a pool and to the escrow. Checked in this order:
/// the pool must not already list the owner, the record's key must equal
/// the derivation from (owner, pool creator), and the project's own flag
/// must not already be set. On success the owner is appended to both the
/// pool's list and the escrow's receiver list, both counters move together,
/// and the flag is set; on failure nothing changes.
pub fn add_project_to_pool(
    escrow_account: &mut Escrow,
    pool_account: &mut Pool,
    project_account: &mut Project,
    project_key: &Identity,
    program_id: &Identity,
) -> (r: Result<(), SolquadError>)
    requires
        old(pool_account).total_projects < u8::MAX,
    ensures
        ({
            let was_member = old(pool_account).projects@.contains(
                old(project_account).project_owner,
            );
            let key_ok = key_matches_derivation(
                project_key@,
                old(project_account).project_owner@,
                old(pool_account).pool_creator@,
                program_id@,
            );
            let was_added = old(project_account).is_added_to_pool;
            match r {
                Ok(_) => !was_member && key_ok && !was_added,
                Err(SolquadError::AlreadyAssociatedWithPool) => was_member,
                Err(SolquadError::InvalidProjectAddress) => !was_member && !key_ok,
                Err(SolquadError::AlreadyAdded) => !was_member && key_ok && was_added,
                Err(SolquadError::ArithmeticOverflow) => false,
            }
        }),
        r is Ok ==> {
            &&& final(pool_account).pool_creator == old(pool_account).pool_creator
            &&& final(pool_account).projects@ == old(pool_account).projects@.push(
                old(project_account).project_owner,
            )
            &&& final(pool_account).total_projects == old(pool_account).total_projects + 1
            &&& final(pool_account).total_votes == old(pool_account).total_votes
            &&& final(escrow_account).escrow_creator == old(escrow_account).escrow_creator
            &&& final(escrow_account).creator_deposit_amount == old(
                escrow_account,
            ).creator_deposit_amount
            &&& final(escrow_account).total_projects == old(escrow_account).total_projects
            &&& final(escrow_account).project_receiver_addresses@ == old(
                escrow_account,
            ).project_receiver_addresses@.push(old(project_account).project_owner)
            &&& final(project_account).project_owner == old(project_account).project_owner
            &&& final(project_account).project_name == old(project_account).project_name
            &&& final(project_account).votes_count == old(project_account).votes_count
            &&& final(project_account).voter_amount == old(project_account).voter_amount
            &&& final(project_account).distributed_amt == old(project_account).distributed_amt
            &&& final(project_account).is_added_to_pool
        },
        r is Err ==> {
            &&& *final(escrow_account) == *old(escrow_account)
            &&& *final(pool_account) == *old(pool_account)
            &&& *final(project_account) == *old(project_account)
        },
        old(project_account).is_added_to_pool ==> final(project_account).is_added_to_pool && r
            is Err,
        old(project_account).is_added_to_pool && key_matches_derivation(
            project_key@,
            old(project_account).project_owner@,
            old(pool_account).pool_creator@,
            program_id@,
        ) ==> (r == Err::<(), SolquadError>(SolquadError::AlreadyAssociatedWithPool) || r == Err::<
            (),
            SolquadError,
        >(SolquadError::AlreadyAdded)),
        !key_matches_derivation(
            project_key@,
            old(project_account).project_owner@,
            old(pool_account).pool_creator@,
            program_id@,
        ) ==> r is Err,
        old(pool_account).well_formed() ==> final(pool_account).well_formed(),
        crate::state::escrow_matches_pool(*old(escrow_account), *old(pool_account))
            ==> crate::state::escrow_matches_pool(*final(escrow_account), *final(pool_account)),
{
    if contains_identity(&pool_account.projects, &project_account.project_owner) {
        return Err(SolquadError::AlreadyAssociatedWithPool);
    }
    let expected = derive_project_address(
        &project_account.project_owner,
        &pool_account.pool_creator,
        program_id,
    );
    let key_ok = match &expected {
        Some(addr) => addr.equals(project_key),
        None => false,
    };
    if !key_ok {
        return Err(SolquadError::InvalidProjectAddress);
    }
    if project_account.is_added_to_pool {
        return Err(SolquadError::AlreadyAdded);
    }
    pool_account.projects.push(project_account.project_owner);
    pool_account.total_projects = pool_account.total_projects + 1;
    escrow_account.project_receiver_addresses.push(project_account.project_owner);
    project_account.is_added_to_pool = true;
    proof {
        let s = old(pool_account).projects@;
        let x = old(project_account).project_owner;
        assert(!s.contains(x));
        if old(pool_account).projects_unique() {
            assert forall|i: int, j: int| 0 <= i < j < s.push(x).len() implies s.push(x)[i]
                != s.push(x)[j] by {
                if j == s.len() && s[i] == x {
                    assert(s.contains(x));
                }
            }
            assert(pool_account.projects_unique());
        }
    }
    Ok(())
}

/// How many entries of the list equal the identity.
pub open spec fn count_matches(s: Seq<Identity>, id: Identity) -> nat
    decreases s.len(),
{
    if s.len() == 0 {
        0
    } else {
        count_matches(s.drop_last(), id) + (if s.last() == id {
            1nat
        } else {
            0nat
        })
    }
}

/// Extending a prefix by one entry raises the count by one exactly when the
/// new entry matches.
proof fn lemma_count_take_step(s: Seq<Identity>, id: Identity, i: int)
    requires
        0 <= i < s.len(),
    ensures
        count_matches(s.take(i + 1), id) == count_matches(s.take(i), id) + (if s[i] == id {
            1nat
        } else {
            0nat
        }),
{
    assert(s.take(i + 1).drop_last() =~= s.take(i));
    assert(s.take(i + 1).last() == s[i]);
}

/// A prefix never matches more often than the whole list.
proof fn lemma_count_take_le(s: Seq<Identity>, id: Identity, i: int)
    requires
        0 <= i <= s.len(),
    ensures
        count_matches(s.take(i), id) <= count_matches(s, id),
    decreases s.len() - i,
{
    if i < s.len() {
        lemma_count_take_step(s, id, i);
        lemma_count_take_le(s, id, i + 1);
    } else {
        assert(s.take(i) =~= s);
    }
}

/// Casts one vote. Every entry of the pool's project list equal to the
/// target project's owner earns the project one vote and the pledged
/// amount; the pool's aggregate vote count rises by one whether or not the
/// owner was found at all. No input is rejected.
pub fn vote_for_project(
    pool_account: &mut Pool,
    project_account: &mut Project,
    amount: u64,
) -> (r: Result<(), SolquadError>)
    requires
        old(pool_account).total_votes < u64::MAX,
        old(project_account).votes_count + count_matches(
            old(pool_account).projects@,
            old(project_account).project_owner,
        ) <= u64::MAX,
        old(project_account).voter_amount + count_matches(
            old(pool_account).projects@,
            old(project_account).project_owner,
        ) * amount <= u64::MAX,
    ensures
        r is Ok,
        final(project_account).votes_count == old(project_account).votes_count + count_matches(
            old(pool_account).projects@,
            old(project_account).project_owner,
        ),
        final(project_account).voter_amount == old(project_account).voter_amount + count_matches(
            old(pool_account).projects@,
            old(project_account).project_owner,
        ) * amount,
        final(pool_account).total_votes == old(pool_account).total_votes + 1,
        final(pool_account).pool_creator == old(pool_account).pool_creator,
        final(pool_account).projects == old(pool_account).projects,
        final(pool_account).total_projects == old(pool_account).total_projects,
        final(project_account).project_owner == old(project_account).project_owner,
        final(project_account).project_name == old(project_account).project_name,
        final(project_account).distributed_amt == old(project_account).distributed_amt,
        final(project_account).is_added_to_pool == old(project_account).is_added_to_pool,
        old(pool_account).well_formed() ==> final(pool_account).well_formed(),
{
    let ghost s = pool_account.projects@;
    let ghost owner = project_account.project_owner;
    let n = pool_account.projects.len();
    let mut i: usize = 0;
    while i < n
        invariant
            i <= n,
            n == s.len(),
            *pool_account == *old(pool_account),
            s == old(pool_account).projects@,
            owner == old(project_account).project_owner,
            project_account.project_owner == old(project_account).project_owner,
            project_account.project_name == old(project_account).project_name,
            project_account.distributed_amt == old(project_account).distributed_amt,
            project_account.is_added_to_pool == old(project_account).is_added_to_pool,
            project_account.votes_count == old(project_account).votes_count + count_matches(
                s.take(i as int),
                owner,
            ),
            project_account.voter_amount == old(project_account).voter_amount + count_matches(
                s.take(i as int),
                owner,
            ) * amount,
            old(project_account).votes_count + count_matches(s, owner) <= u64::MAX,
            old(project_account).voter_amount + count_matches(s, owner) * amount <= u64::MAX,
        decreases n - i,
    {
        proof {
            lemma_count_take_step(s, owner, i as int);
            lemma_count_take_le(s, owner, i as int + 1);
            let c1 = count_matches(s.take(i as int + 1), owner);
            let c2 = count_matches(s, owner);
            assert(c1 <= c2 ==> c1 * amount <= c2 * amount) by (nonlinear_arith);
            assert((count_matches(s.take(i as int), owner) + 1) * amount == count_matches(
                s.take(i as int),
                owner,
            ) * amount + amount) by (nonlinear_arith);
        }
        let entry = pool_account.projects[i];
        if entry.equals(&project_account.project_owner) {
            project_account.votes_count = project_account.votes_count + 1;
            project_account.voter_amount = project_account.voter_amount + amount;
        }
        i += 1;
    }
    proof {
        assert(s.take(n as int) =~= s);
    }
    pool_account.total_votes = pool_account.total_votes + 1;
    Ok(())
}

/// The votes an entry of the receiver list contributes: the target
/// project's own tally when the entry names its owner, zero otherwise.
pub open spec fn votes_for_entry(entry: Identity, project: Project) -> u64 {
    if entry == project.project_owner {
        project.votes_count
    } else {
        0u64
    }
}

/// The distributed share for a vote tally: zero votes yield zero outright;
/// otherwise the tally is divided by the total (truncating), then
/// multiplied by the deposit, and the result is undefined (`None`) on
/// division by zero or overflow.
pub open spec fn share_of(votes: u64, total_votes: u64, deposit: u64) -> Option<u64> {
    if votes == 0 {
        Some(0u64)
    } else if total_votes == 0 {
        None
    } else if (votes as int / total_votes as int) * (deposit as int) > u64::MAX as int {
        None
    } else {
        Some(((votes as int / total_votes as int) * (deposit as int)) as u64)
    }
}

/// The share computed at position `i` of the escrow's receiver list, where
/// the pool's list is read at the same position.
pub open spec fn entry_share(escrow: Escrow, pool: Pool, project: Project, i: int) -> Option<u64> {
    share_of(
        votes_for_entry(pool.projects@[i], project),
        pool.total_votes,
        escrow.creator_deposit_amount,
    )
}

/// Distribution succeeds exactly when every position yields a defined
/// share.
pub open spec fn distribution_succeeds(escrow: Escrow, pool: Pool, project: Project) -> bool {
    forall|i: int|
        0 <= i < escrow.project_receiver_addresses@.len() ==> (#[trigger] entry_share(
            escrow,
            pool,
            project,
            i,
        )) is Some
}

/// Walks the escrow's receiver list, reading the pool's list at the same
/// positions, and computes the target project's share at each position with
/// truncating, overflow-checked arithmetic. When every share is defined the
/// last one computed is recorded as the project's distributed amount;
/// otherwise the operation fails with `ArithmeticOverflow` and nothing is
/// written.
pub fn distribute_escrow_amount(
    escrow_account: &Escrow,
    pool_account: &Pool,
    project_account: &mut Project,
) -> (r: Result<(), SolquadError>)
    requires
        escrow_account.project_receiver_addresses@.len() <= pool_account.projects@.len(),
    ensures
        (r is Ok <==> distribution_succeeds(*escrow_account, *pool_account, *old(project_account))),
        r is Err ==> r == Err::<(), SolquadError>(SolquadError::ArithmeticOverflow)
            && *final(project_account) == *old(project_account),
        r is Ok ==> ({
            let n = escrow_account.project_receiver_addresses@.len() as int;
            &&& (n == 0 ==> *final(project_account) == *old(project_account))
            &&& (n > 0 ==> final(project_account).distributed_amt == entry_share(
                *escrow_account,
                *pool_account,
                *old(project_account),
                n - 1,
            )->Some_0)
        }),
        final(project_account).project_owner == old(project_account).project_owner,
        final(project_account).project_name == old(project_account).project_name,
        final(project_account).votes_count == old(project_account).votes_count,
        final(project_account).voter_amount == old(project_account).voter_amount,
        final(project_account).is_added_to_pool == old(project_account).is_added_to_pool,
{
    let n = escrow_account.project_receiver_addresses.len();
    let mut last_share: u64 = 0;
    let mut i: usize = 0;
    while i < n
        invariant
            i <= n,
            n == escrow_account.project_receiver_addresses@.len(),
            n <= pool_account.projects@.len(),
            *project_account == *old(project_account),
            forall|j: int|
                0 <= j < i ==> (#[trigger] entry_share(
                    *escrow_account,
                    *pool_account,
                    *project_account,
                    j,
                )) is Some,
            i > 0 ==> last_share == entry_share(
                *escrow_account,
                *pool_account,
                *project_account,
                i as int - 1,
            )->Some_0,
        decreases n - i,
    {
        let entry = pool_account.projects[i];
        let votes: u64 = if entry.equals(&project_account.project_owner) {
            project_account.votes_count
        } else {
            0
        };
        let checked: Option<u64> = if votes == 0 {
            Some(0)
        } else if pool_account.total_votes == 0 {
            None
        } else {
            let ratio = votes / pool_account.total_votes;
            ratio.checked_mul(escrow_account.creator_deposit_amount)
        };
        match checked {
            Some(amount) => {
                last_share = amount;
            },
            None => {
                proof {
                    assert(entry_share(
                        *escrow_account,
                        *pool_account,
                        *project_account,
                        i as int,
                    ) is None);
                }
                return Err(SolquadError::ArithmeticOverflow);
            },
        }
        i += 1;
    }
    if n > 0 {
        project_account.distributed_amt = last_share;
    }
    Ok(())
}

} // verus!

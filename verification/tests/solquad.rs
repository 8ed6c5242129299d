use solquad::address::derive_project_address;
use solquad::errors::SolquadError;
use solquad::identity::Identity;
use solquad::ops::{
    add_project_to_pool, contains_identity, distribute_escrow_amount, initialize_escrow,
    initialize_pool, initialize_project, vote_for_project,
};
use solquad::state::{Pool, Project, Voter};

fn id(tag: u8) -> Identity {
    Identity { bytes: [tag; 32] }
}

fn registered_key(owner: &Identity, pool_creator: &Identity, program_id: &Identity) -> Identity {
    derive_project_address(owner, pool_creator, program_id)
        .expect("derivation should find a bump seed")
}

#[test]
fn initializers_zero_everything() {
    let escrow = initialize_escrow(id(1), 500);
    assert!(escrow.escrow_creator.equals(&id(1)));
    assert_eq!(escrow.creator_deposit_amount, 500);
    assert_eq!(escrow.total_projects, 0);
    assert!(escrow.project_receiver_addresses.is_empty());

    let pool = initialize_pool(id(2));
    assert!(pool.pool_creator.equals(&id(2)));
    assert_eq!(pool.total_projects, 0);
    assert_eq!(pool.total_votes, 0);
    assert!(pool.projects.is_empty());

    let project = initialize_project(id(3), "alpha".to_string());
    assert!(project.project_owner.equals(&id(3)));
    assert_eq!(project.project_name, "alpha");
    assert_eq!(project.votes_count, 0);
    assert_eq!(project.voter_amount, 0);
    assert_eq!(project.distributed_amt, 0);
    assert!(!project.is_added_to_pool);
}

#[test]
fn derivation_is_deterministic_and_not_the_input() {
    let owner = id(3);
    let creator = id(2);
    let program = id(7);
    let first = registered_key(&owner, &creator, &program);
    let second = registered_key(&owner, &creator, &program);
    assert!(first.equals(&second));
    // The derived key is a hash of the seeds, not any seed handed back.
    assert!(!first.equals(&owner));
    assert!(!first.equals(&creator));
    assert!(!first.equals(&program));
    // A different owner lands at a different address.
    let other = registered_key(&id(4), &creator, &program);
    assert!(!other.equals(&first));
}

#[test]
fn registration_succeeds_with_derived_key() {
    let program = id(7);
    let creator = id(2);
    let owner = id(3);
    let mut escrow = initialize_escrow(id(1), 1000);
    let mut pool = initialize_pool(creator);
    let mut project = initialize_project(owner, "alpha".to_string());
    let key = registered_key(&owner, &creator, &program);

    let r = add_project_to_pool(&mut escrow, &mut pool, &mut project, &key, &program);
    assert_eq!(r, Ok(()));
    assert!(project.is_added_to_pool);
    assert_eq!(pool.total_projects, 1);
    assert_eq!(pool.projects.len(), 1);
    assert!(pool.projects[0].equals(&owner));
    assert_eq!(escrow.project_receiver_addresses.len(), 1);
    assert!(escrow.project_receiver_addresses[0].equals(&owner));
    assert!(contains_identity(&pool.projects, &owner));
}

#[test]
fn registration_rejects_foreign_key() {
    let program = id(7);
    let creator = id(2);
    let owner = id(3);
    let mut escrow = initialize_escrow(id(1), 1000);
    let mut pool = initialize_pool(creator);
    let mut project = initialize_project(owner, "alpha".to_string());
    // A key derived for another pool's creator does not bind here.
    let foreign = registered_key(&owner, &id(9), &program);

    let r = add_project_to_pool(&mut escrow, &mut pool, &mut project, &foreign, &program);
    assert_eq!(r, Err(SolquadError::InvalidProjectAddress));
    assert!(!project.is_added_to_pool);
    assert_eq!(pool.total_projects, 0);
    assert!(pool.projects.is_empty());
    assert!(escrow.project_receiver_addresses.is_empty());
}

#[test]
fn second_registration_is_rejected() {
    let program = id(7);
    let creator = id(2);
    let owner = id(3);
    let mut escrow = initialize_escrow(id(1), 1000);
    let mut pool = initialize_pool(creator);
    let mut project = initialize_project(owner, "alpha".to_string());
    let key = registered_key(&owner, &creator, &program);

    assert_eq!(add_project_to_pool(&mut escrow, &mut pool, &mut project, &key, &program), Ok(()));
    // The pool already lists the owner: the membership check fires first.
    let r = add_project_to_pool(&mut escrow, &mut pool, &mut project, &key, &program);
    assert_eq!(r, Err(SolquadError::AlreadyAssociatedWithPool));
    assert!(project.is_added_to_pool);
    assert_eq!(pool.projects.len(), 1);
    assert_eq!(escrow.project_receiver_addresses.len(), 1);
}

#[test]
fn flag_alone_blocks_registration() {
    let program = id(7);
    let creator = id(2);
    let owner = id(3);
    let mut escrow = initialize_escrow(id(1), 1000);
    let mut pool = initialize_pool(creator);
    // The pool does not list the owner, but the project's own flag is set:
    // the flag check fires once membership and key both pass.
    let mut project = Project {
        project_owner: owner,
        project_name: "alpha".to_string(),
        votes_count: 0,
        voter_amount: 0,
        distributed_amt: 0,
        is_added_to_pool: true,
    };
    let key = registered_key(&owner, &creator, &program);

    let r = add_project_to_pool(&mut escrow, &mut pool, &mut project, &key, &program);
    assert_eq!(r, Err(SolquadError::AlreadyAdded));
    assert!(project.is_added_to_pool);
    assert!(pool.projects.is_empty());
}

#[test]
fn vote_accounting_per_project() {
    let program = id(7);
    let creator = id(2);
    let mut escrow = initialize_escrow(id(1), 1000);
    let mut pool = initialize_pool(creator);
    let mut a = initialize_project(id(3), "alpha".to_string());
    let mut b = initialize_project(id(4), "beta".to_string());
    let key_a = registered_key(&a.project_owner, &creator, &program);
    let key_b = registered_key(&b.project_owner, &creator, &program);
    assert_eq!(add_project_to_pool(&mut escrow, &mut pool, &mut a, &key_a, &program), Ok(()));
    assert_eq!(add_project_to_pool(&mut escrow, &mut pool, &mut b, &key_b, &program), Ok(()));

    assert_eq!(vote_for_project(&mut pool, &mut a, 10), Ok(()));
    assert_eq!(vote_for_project(&mut pool, &mut a, 20), Ok(()));
    assert_eq!(vote_for_project(&mut pool, &mut a, 30), Ok(()));
    assert_eq!(vote_for_project(&mut pool, &mut b, 5), Ok(()));

    assert_eq!(a.votes_count, 3);
    assert_eq!(a.voter_amount, 60);
    assert_eq!(b.votes_count, 1);
    assert_eq!(b.voter_amount, 5);
    assert_eq!(pool.total_votes, 4);
}

#[test]
fn vote_for_absent_project_still_counts_toward_pool() {
    let mut pool = initialize_pool(id(2));
    let mut stray = initialize_project(id(8), "stray".to_string());
    assert_eq!(vote_for_project(&mut pool, &mut stray, 50), Ok(()));
    assert_eq!(stray.votes_count, 0);
    assert_eq!(stray.voter_amount, 0);
    assert_eq!(pool.total_votes, 1);
}

#[test]
fn distribution_truncates_below_total() {
    // votes 3 of total 10 on a deposit of 1000: 3/10 truncates to 0.
    let escrow = mk_escrow(1000, &[id(3)]);
    let pool = mk_pool(id(2), &[id(3)], 10);
    let mut project = mk_voted_project(id(3), 3, 60);
    let r = distribute_escrow_amount(&escrow, &pool, &mut project);
    assert_eq!(r, Ok(()));
    assert_eq!(project.distributed_amt, 0);
}

#[test]
fn distribution_zero_votes_yields_zero() {
    // Zero votes never divide: even a zero total succeeds.
    let escrow = mk_escrow(1000, &[id(3)]);
    let pool = mk_pool(id(2), &[id(3)], 0);
    let mut project = mk_voted_project(id(3), 0, 0);
    let r = distribute_escrow_amount(&escrow, &pool, &mut project);
    assert_eq!(r, Ok(()));
    assert_eq!(project.distributed_amt, 0);
}

#[test]
fn distribution_zero_total_fails_and_writes_nothing() {
    let escrow = mk_escrow(1000, &[id(3)]);
    let pool = mk_pool(id(2), &[id(3)], 0);
    let mut project = mk_voted_project(id(3), 4, 40);
    project.distributed_amt = 77;
    let r = distribute_escrow_amount(&escrow, &pool, &mut project);
    assert_eq!(r, Err(SolquadError::ArithmeticOverflow));
    assert_eq!(project.distributed_amt, 77);
}

#[test]
fn distribution_overflow_fails_and_writes_nothing() {
    // ratio 2 times a deposit of u64::MAX overflows the multiplication.
    let escrow = mk_escrow(u64::MAX, &[id(3)]);
    let pool = mk_pool(id(2), &[id(3)], 1);
    let mut project = mk_voted_project(id(3), 2, 20);
    project.distributed_amt = 5;
    let r = distribute_escrow_amount(&escrow, &pool, &mut project);
    assert_eq!(r, Err(SolquadError::ArithmeticOverflow));
    assert_eq!(project.distributed_amt, 5);
}

#[test]
fn distribution_pays_whole_multiples() {
    // votes 4 of total 2: the quotient 2 times the deposit 1000 is 2000.
    let escrow = mk_escrow(1000, &[id(3)]);
    let pool = mk_pool(id(2), &[id(3)], 2);
    let mut project = mk_voted_project(id(3), 4, 40);
    let r = distribute_escrow_amount(&escrow, &pool, &mut project);
    assert_eq!(r, Ok(()));
    assert_eq!(project.distributed_amt, 2000);
}

#[test]
fn distribution_over_empty_receiver_list_changes_nothing() {
    let escrow = mk_escrow(1000, &[]);
    let pool = mk_pool(id(2), &[], 3);
    let mut project = mk_voted_project(id(3), 2, 20);
    project.distributed_amt = 11;
    let r = distribute_escrow_amount(&escrow, &pool, &mut project);
    assert_eq!(r, Ok(()));
    assert_eq!(project.distributed_amt, 11);
}

#[test]
fn distribution_reads_pool_positionally() {
    // The receiver list and the pool's list are read by position. When the
    // target sits at an earlier position than the last receiver, the last
    // position's (zero) share is the one recorded.
    let escrow = mk_escrow(1000, &[id(3), id(4)]);
    let pool = mk_pool(id(2), &[id(3), id(4)], 2);
    let mut project = mk_voted_project(id(3), 2, 20);
    let r = distribute_escrow_amount(&escrow, &pool, &mut project);
    assert_eq!(r, Ok(()));
    assert_eq!(project.distributed_amt, 0);
}

#[test]
fn scenario_two_projects_four_votes() {
    let program = id(7);
    let funder = id(1);
    let creator = id(2);
    let mut escrow = initialize_escrow(funder, 1_000_000);
    let mut pool = initialize_pool(creator);
    let mut a = initialize_project(id(3), "alpha".to_string());
    let mut b = initialize_project(id(4), "beta".to_string());
    let key_a = registered_key(&a.project_owner, &creator, &program);
    let key_b = registered_key(&b.project_owner, &creator, &program);
    assert_eq!(add_project_to_pool(&mut escrow, &mut pool, &mut a, &key_a, &program), Ok(()));
    assert_eq!(add_project_to_pool(&mut escrow, &mut pool, &mut b, &key_b, &program), Ok(()));

    for _ in 0..3 {
        assert_eq!(vote_for_project(&mut pool, &mut a, 10), Ok(()));
    }
    assert_eq!(vote_for_project(&mut pool, &mut b, 5), Ok(()));
    assert_eq!(pool.total_votes, 4);
    assert_eq!(a.votes_count, 3);
    assert_eq!(b.votes_count, 1);

    // floor(3/4) * 1_000_000 == 0
    let r = distribute_escrow_amount(&escrow, &pool, &mut a);
    assert_eq!(r, Ok(()));
    assert_eq!(a.distributed_amt, 0);
}

#[test]
fn identity_equality_is_bytewise() {
    let mut near_bytes = [3u8; 32];
    near_bytes[31] = 4;
    let near = Identity { bytes: near_bytes };
    assert!(!near.equals(&id(3)));
    assert!(id(3).equals(&id(3)));
}

#[test]
fn membership_looks_at_every_position() {
    let pool = mk_pool(id(2), &[id(3), id(4), id(5)], 0);
    assert!(contains_identity(&pool.projects, &id(5)));
    assert!(!contains_identity(&pool.projects, &id(6)));
}

#[test]
fn error_messages() {
    assert_eq!(SolquadError::AlreadyAdded.message(), "Project is already added to a pool");
    assert_eq!(SolquadError::AlreadyAssociatedWithPool.message(), "Already associated with a pool");
    assert_eq!(SolquadError::InvalidProjectAddress.message(), "Project address is invalid");
    assert_eq!(SolquadError::ArithmeticOverflow.message(), "Arithmetic overflow");
}

#[test]
fn voter_record_holds_its_fields() {
    let v = Voter { voter: id(5), voted_for: id(3), token_amount: 25 };
    assert!(v.voter.equals(&id(5)));
    assert!(v.voted_for.equals(&id(3)));
    assert_eq!(v.token_amount, 25);
}

// Builders for records in mid-life states that the initializers alone
// cannot reach.
fn mk_escrow(deposit: u64, receivers: &[Identity]) -> solquad::state::Escrow {
    let mut e = initialize_escrow(id(1), deposit);
    for r in receivers {
        e.project_receiver_addresses.push(*r);
        e.total_projects += 1;
    }
    e
}

fn mk_pool(creator: Identity, projects: &[Identity], total_votes: u64) -> Pool {
    let mut p = initialize_pool(creator);
    for pr in projects {
        p.projects.push(*pr);
        p.total_projects += 1;
    }
    p.total_votes = total_votes;
    p
}

fn mk_voted_project(owner: Identity, votes: u64, amount: u64) -> Project {
    let mut pr = initialize_project(owner, "candidate".to_string());
    pr.votes_count = votes;
    pr.voter_amount = amount;
    pr
}

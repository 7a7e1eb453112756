use dao::address::{Address, ProposalId};
use dao::error::DaoError;
use dao::member::{add_members, remove_member};
use dao::proposal::quorum_reached;
use dao::proposal::status::derive_status;
use dao::state::DaoContract;
use dao::types::dao::Metadata as DaoMetadata;
use dao::types::proposal::{AddMember, GrantVotingPower, Metadata, RemoveMember, RevokeVotingPower, Status};

fn addr(s: &str) -> Address {
    Address::new(s.to_string())
}

fn pid(n: u8) -> ProposalId {
    ProposalId::new([n; 32])
}

fn config() -> DaoMetadata {
    DaoMetadata { min_proposal_duration: 3600, max_proposal_duration: 604800, min_quorum_percentage: 50 }
}

fn members(n: usize) -> Vec<Address> {
    (0..n).map(|i| addr(&format!("GM{}", i))).collect()
}

fn dao_with(list: &Vec<Address>) -> DaoContract {
    let mut dao = DaoContract::new(addr("CDAO"));
    dao.initialize(list.clone(), config()).unwrap();
    dao
}

fn meta(proposer: &Address, start: u64, end: u64) -> Metadata {
    Metadata {
        name: "n".to_string(),
        description: "d".to_string(),
        proposer: proposer.clone(),
        start_time: start,
        end_time: end,
    }
}

fn add_proposal(dao: &mut DaoContract, proposer: &Address, candidate: &Address, id: ProposalId) -> ProposalId {
    dao.add_member_proposal(
        AddMember { metadata: meta(proposer, 5100, 26000), candidate: candidate.clone() },
        id,
        5000,
    )
    .unwrap()
}

#[test]
fn fewer_than_three_initial_members_fail() {
    for n in 0..3 {
        let mut dao = DaoContract::new(addr("CDAO"));
        assert_eq!(dao.initialize(members(n), config()), Err(DaoError::InsufficientInitialMembers));
        assert!(dao.get_members().is_empty());
    }
}

#[test]
fn three_distinct_members_get_one_unit_each() {
    let list = members(3);
    let dao = dao_with(&list);
    assert_eq!(dao.get_members(), list);
    for m in &list {
        assert!(dao.has_voting_power(m));
        assert_eq!(dao.token.balance(m), Ok(1));
    }
    assert_eq!(dao.token.admin, Some(addr("CDAO")));
    assert_eq!(dao.token.name(), Ok("VoteToken".to_string()));
    assert_eq!(dao.token.symbol(), Ok("VTK".to_string()));
}

#[test]
fn second_initialization_fails() {
    let list = members(3);
    let mut dao = dao_with(&list);
    assert_eq!(dao.initialize(members(4), config()), Err(DaoError::AlreadyInitialized));
    assert_eq!(dao.get_members(), list);
}

#[test]
fn repeated_initial_member_fails() {
    let mut dao = DaoContract::new(addr("CDAO"));
    let list = vec![addr("GA"), addr("GB"), addr("GA")];
    assert_eq!(dao.initialize(list, config()), Err(DaoError::DuplicateMember));
    assert!(dao.get_members().is_empty());
    assert!(dao.config.is_none());
}

#[test]
fn submitting_before_initialization_fails() {
    let mut dao = DaoContract::new(addr("CDAO"));
    add_members(&mut dao, vec![addr("GA")]).unwrap();
    let r = dao.add_member_proposal(
        AddMember { metadata: meta(&addr("GA"), 5100, 26000), candidate: addr("GB") },
        pid(1),
        5000,
    );
    assert_eq!(r, Err(DaoError::NotInitialized));
}

#[test]
fn registry_refuses_repeats_and_unknowns() {
    let list = members(3);
    let mut dao = dao_with(&list);
    assert_eq!(add_members(&mut dao, vec![addr("GX"), list[1].clone()]), Err(DaoError::DuplicateMember));
    assert_eq!(dao.get_members(), list);
    assert_eq!(remove_member(&mut dao, &addr("GX")), Err(DaoError::UnknownMember));
    assert_eq!(remove_member(&mut dao, &list[1]), Ok(()));
    assert_eq!(dao.get_members(), vec![list[0].clone(), list[2].clone()]);
}

#[test]
fn status_follows_the_window() {
    let m = meta(&addr("GA"), 100, 200);
    assert_eq!(derive_status(99, &m), Status::NotStarted);
    assert_eq!(derive_status(100, &m), Status::Active);
    assert_eq!(derive_status(200, &m), Status::Active);
    assert_eq!(derive_status(201, &m), Status::Ended);
    assert_eq!(derive_status(u64::MAX, &m), Status::Ended);
}

#[test]
fn quorum_is_strictly_greater() {
    assert!(!quorum_reached(2, 4, 50));
    assert!(quorum_reached(3, 4, 50));
    assert!(quorum_reached(2, 3, 50));
    assert!(!quorum_reached(0, 0, 0));
    assert!(quorum_reached(1, 0, 0));
    assert!(!quorum_reached(4, 4, 100));
    assert!(quorum_reached(usize::MAX, usize::MAX, 99));
}

#[test]
fn start_must_lie_strictly_in_the_future() {
    let list = members(3);
    let mut dao = dao_with(&list);
    let r = dao.add_member_proposal(
        AddMember { metadata: meta(&list[0], 5000, 26000), candidate: addr("GC") },
        pid(1),
        5000,
    );
    assert_eq!(r, Err(DaoError::InvalidWindow));
    let r = dao.add_member_proposal(
        AddMember { metadata: meta(&list[0], 5100, 5100), candidate: addr("GC") },
        pid(1),
        5000,
    );
    assert_eq!(r, Err(DaoError::InvalidWindow));
    let r = dao.add_member_proposal(
        AddMember { metadata: meta(&list[0], 5001, 5001 + 604800), candidate: addr("GC") },
        pid(1),
        5000,
    );
    assert_eq!(r, Ok(pid(1)));
}

#[test]
fn adding_an_existing_member_fails() {
    let list = members(3);
    let mut dao = dao_with(&list);
    let r = dao.add_member_proposal(
        AddMember { metadata: meta(&list[0], 5100, 26000), candidate: list[2].clone() },
        pid(1),
        5000,
    );
    assert_eq!(r, Err(DaoError::AlreadyMember));
    let r = dao.remove_member_proposal(
        RemoveMember { metadata: meta(&list[0], 5100, 26000), candidate: addr("GZ") },
        pid(1),
        5000,
    );
    assert_eq!(r, Err(DaoError::UnknownMember));
}

#[test]
fn end_to_end_two_votes_reject() {
    let list = members(4);
    let candidate = addr("GCAND");
    let mut dao = dao_with(&list);
    let id = add_proposal(&mut dao, &list[0], &candidate, pid(1));
    dao.vote_proposal(list[0].clone(), &id, 5400).unwrap();
    dao.vote_proposal(list[1].clone(), &id, 5400).unwrap();
    assert_eq!(dao.evaluate_add_member_proposal(&list[3], &id, 27000), Ok(()));
    assert_eq!(dao.get_proposal_status(&id), Ok(Status::Rejected));
    assert_eq!(dao.get_members(), list);
}

#[test]
fn end_to_end_three_votes_accept() {
    let list = members(4);
    let candidate = addr("GCAND");
    let mut dao = dao_with(&list);
    let id = add_proposal(&mut dao, &list[0], &candidate, pid(1));
    for m in list.iter().take(3) {
        dao.vote_proposal(m.clone(), &id, 5400).unwrap();
    }
    assert_eq!(dao.evaluate_add_member_proposal(&list[3], &id, 27000), Ok(()));
    assert_eq!(dao.get_proposal_status(&id), Ok(Status::Accepted));
    let mut expected = list.clone();
    expected.push(candidate);
    assert_eq!(dao.get_members(), expected);
}

#[test]
fn second_evaluation_fails_and_changes_nothing() {
    let list = members(3);
    let candidate = addr("GCAND");
    let mut dao = dao_with(&list);
    let id = add_proposal(&mut dao, &list[0], &candidate, pid(1));
    dao.vote_proposal(list[0].clone(), &id, 5400).unwrap();
    dao.vote_proposal(list[1].clone(), &id, 5400).unwrap();
    dao.evaluate_add_member_proposal(&list[0], &id, 27000).unwrap();
    let members_after = dao.get_members();
    assert_eq!(dao.evaluate_add_member_proposal(&list[1], &id, 30000), Err(DaoError::AlreadyEvaluated));
    assert_eq!(dao.get_members(), members_after);
    assert_eq!(dao.get_proposal_status(&id), Ok(Status::Accepted));
    // Voting on a decided proposal is refused and keeps the final status.
    assert_eq!(dao.vote_proposal(list[2].clone(), &id, 30000), Err(DaoError::ProposalEnded));
    assert_eq!(dao.get_proposal_status(&id), Ok(Status::Accepted));
}

#[test]
fn evaluation_before_the_end_fails() {
    let list = members(3);
    let mut dao = dao_with(&list);
    let id = add_proposal(&mut dao, &list[0], &addr("GCAND"), pid(1));
    assert_eq!(dao.evaluate_add_member_proposal(&list[0], &id, 26000), Err(DaoError::ProposalNotEnded));
    assert_eq!(dao.get_proposal_status(&id), Ok(Status::NotStarted));
    assert_eq!(dao.evaluate_add_member_proposal(&addr("GOUT"), &id, 27000), Err(DaoError::NotAMember));
}

#[test]
fn evaluation_of_unknown_or_other_kind_fails() {
    let list = members(3);
    let mut dao = dao_with(&list);
    let id = add_proposal(&mut dao, &list[0], &addr("GCAND"), pid(1));
    assert_eq!(dao.evaluate_remove_member_proposal(&list[0], &id, 27000), Err(DaoError::ProposalNotFound));
    assert_eq!(dao.evaluate_add_member_proposal(&list[0], &pid(9), 27000), Err(DaoError::ProposalNotFound));
    assert_eq!(dao.get_remove_member_proposal(&id).err(), Some(DaoError::ProposalNotFound));
    assert_eq!(dao.get_proposal_status(&pid(9)), Err(DaoError::ProposalNotFound));
    assert!(dao.get_proposal_votes(&pid(9)).is_empty());
    assert_eq!(dao.vote_proposal(list[0].clone(), &pid(9), 5400), Err(DaoError::ProposalNotFound));
}

#[test]
fn voter_without_power_fails() {
    let list = members(3);
    let candidate = addr("GCAND");
    let mut dao = dao_with(&list);
    let id = add_proposal(&mut dao, &list[0], &candidate, pid(1));
    dao.vote_proposal(list[0].clone(), &id, 5400).unwrap();
    dao.vote_proposal(list[1].clone(), &id, 5400).unwrap();
    dao.evaluate_add_member_proposal(&list[0], &id, 27000).unwrap();
    let id2 = dao
        .add_member_proposal(
            AddMember { metadata: meta(&list[0], 30000, 40000), candidate: addr("GOTHER") },
            pid(2),
            29000,
        )
        .unwrap();
    assert_eq!(dao.vote_proposal(candidate.clone(), &id2, 30000), Err(DaoError::NoVotingPower));
    assert!(dao.get_proposal_votes(&id2).is_empty());
}

#[test]
fn grant_and_revoke_flip_power() {
    let list = members(3);
    let mut dao = dao_with(&list);
    let target = list[2].clone();
    // Revoke the power of a member, then grant it back.
    let id = dao
        .revoke_voting_proposal(
            RevokeVotingPower { metadata: meta(&list[0], 5100, 26000), candidate: target.clone() },
            pid(1),
            5000,
        )
        .unwrap();
    dao.vote_proposal(list[0].clone(), &id, 5400).unwrap();
    dao.vote_proposal(list[1].clone(), &id, 5400).unwrap();
    assert!(dao.has_voting_power(&target));
    dao.evaluate_revoke_voting_proposal(&list[0], &id, 27000).unwrap();
    assert!(!dao.has_voting_power(&target));

    let id = dao
        .grant_voting_proposal(
            GrantVotingPower { metadata: meta(&list[0], 28000, 40000), candidate: target.clone() },
            pid(2),
            27000,
        )
        .unwrap();
    dao.vote_proposal(list[0].clone(), &id, 30000).unwrap();
    dao.vote_proposal(list[1].clone(), &id, 30000).unwrap();
    dao.evaluate_grant_voting_proposal(&list[1], &id, 40001).unwrap();
    assert!(dao.has_voting_power(&target));
}

#[test]
fn revoking_twice_fails_on_the_ledger() {
    let list = members(3);
    let mut dao = dao_with(&list);
    let target = list[2].clone();
    let mut ids = Vec::new();
    for n in 1..=2 {
        ids.push(
            dao.revoke_voting_proposal(
                RevokeVotingPower { metadata: meta(&list[0], 5100, 26000), candidate: target.clone() },
                pid(n),
                5000,
            )
            .unwrap(),
        );
    }
    for id in &ids {
        dao.vote_proposal(list[0].clone(), id, 5400).unwrap();
        dao.vote_proposal(list[1].clone(), id, 5400).unwrap();
    }
    dao.evaluate_revoke_voting_proposal(&list[0], &ids[0], 27000).unwrap();
    assert_eq!(
        dao.evaluate_revoke_voting_proposal(&list[0], &ids[1], 27000),
        Err(DaoError::InsufficientBalance)
    );
    assert_eq!(dao.get_proposal_status(&ids[1]), Ok(Status::Active));
}

#[test]
fn rejected_grant_changes_nothing() {
    let list = members(3);
    let mut dao = dao_with(&list);
    let target = list[2].clone();
    let id = dao
        .revoke_voting_proposal(
            RevokeVotingPower { metadata: meta(&list[0], 5100, 26000), candidate: target.clone() },
            pid(1),
            5000,
        )
        .unwrap();
    dao.vote_proposal(list[0].clone(), &id, 5400).unwrap();
    dao.evaluate_revoke_voting_proposal(&list[0], &id, 27000).unwrap();
    assert_eq!(dao.get_proposal_status(&id), Ok(Status::Rejected));
    assert!(dao.has_voting_power(&target));
}

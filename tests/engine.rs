use dao::address::{Address, ProposalId};
use dao::error::DaoError;
use dao::proposal::status::{read_status, update_status, write_status};
use dao::proposal::vote::{read_votes, write_vote};
use dao::proposal::{check_proposal, only_member_proposal, only_member_vote, validate_proposal};
use dao::proposal::{add_member, general_purpose};
use dao::state::DaoContract;
use dao::types::dao::Metadata as DaoMetadata;
use dao::types::data_key;
use dao::types::proposal::{AddMember, GeneralPurpose, Metadata, Status};

fn addr(s: &str) -> Address {
    Address::new(s.to_string())
}

fn pid(n: u8) -> ProposalId {
    ProposalId::new([n; 32])
}

fn meta(proposer: &Address, start: u64, end: u64) -> Metadata {
    Metadata {
        name: "n".to_string(),
        description: "d".to_string(),
        proposer: proposer.clone(),
        start_time: start,
        end_time: end,
    }
}

fn setup() -> (DaoContract, Vec<Address>) {
    let list = vec![addr("GA"), addr("GB"), addr("GC")];
    let mut dao = DaoContract::new(addr("CDAO"));
    dao.initialize(
        list.clone(),
        DaoMetadata { min_proposal_duration: 100, max_proposal_duration: 1000, min_quorum_percentage: 50 },
    )
    .unwrap();
    (dao, list)
}

#[test]
fn store_keys_follow_the_state() {
    let fresh = DaoContract::new(addr("CDAO"));
    assert!(!fresh.has(&data_key::Dao::Members));
    assert!(!fresh.has(&data_key::Dao::TokenContractId));
    assert!(!fresh.has(&data_key::Dao::Metadata));
    let (mut dao, list) = setup();
    assert!(dao.has(&data_key::Dao::Members));
    assert!(dao.has(&data_key::Dao::TokenContractId));
    assert!(dao.has(&data_key::Dao::Metadata));

    let id = add_member::write(
        &mut dao,
        AddMember { metadata: meta(&list[0], 200, 500), candidate: addr("GD") },
        pid(4),
        100,
    )
    .unwrap();
    assert!(dao.has_proposal_key(&data_key::Proposal::AddMember(id)));
    assert!(!dao.has_proposal_key(&data_key::Proposal::RemoveMember(id)));
    assert!(dao.has_proposal_key(&data_key::Proposal::Metadata(id)));
    assert!(dao.has_proposal_key(&data_key::Proposal::Status(id)));
    assert!(!dao.has_proposal_key(&data_key::Proposal::Vote(id)));
    dao.vote_proposal(list[0].clone(), &id, 300).unwrap();
    assert!(dao.has_proposal_key(&data_key::Proposal::Vote(id)));
    assert!(!dao.has_proposal_key(&data_key::Proposal::Status(pid(5))));
}

#[test]
fn status_is_refreshed_until_final() {
    let (mut dao, list) = setup();
    let id = general_purpose::write(
        &mut dao,
        GeneralPurpose { metadata: meta(&list[0], 200, 500), actions: "a".to_string() },
        pid(1),
        100,
    )
    .unwrap();
    assert_eq!(read_status(&dao, &id), Ok(Status::NotStarted));
    assert_eq!(update_status(&mut dao, &id, 300), Ok(Status::Active));
    assert_eq!(read_status(&dao, &id), Ok(Status::Active));
    assert_eq!(update_status(&mut dao, &id, 501), Ok(Status::Ended));
    assert_eq!(write_status(&mut dao, &id, Status::Rejected), Ok(()));
    assert_eq!(update_status(&mut dao, &id, 300), Ok(Status::Rejected));
    assert_eq!(update_status(&mut dao, &pid(2), 300), Err(DaoError::ProposalNotFound));
    assert_eq!(write_status(&mut dao, &pid(2), Status::Active), Err(DaoError::ProposalNotFound));
    assert_eq!(read_status(&dao, &pid(2)), Err(DaoError::ProposalNotFound));
}

#[test]
fn votable_only_while_active() {
    let (mut dao, list) = setup();
    let id = general_purpose::write(
        &mut dao,
        GeneralPurpose { metadata: meta(&list[0], 200, 500), actions: "a".to_string() },
        pid(1),
        100,
    )
    .unwrap();
    assert_eq!(check_proposal(&mut dao, &id, 150), Err(DaoError::ProposalNotStarted));
    assert_eq!(check_proposal(&mut dao, &id, 200), Ok(()));
    assert_eq!(check_proposal(&mut dao, &id, 500), Ok(()));
    assert_eq!(check_proposal(&mut dao, &id, 501), Err(DaoError::ProposalEnded));
    assert_eq!(check_proposal(&mut dao, &pid(3), 300), Err(DaoError::ProposalNotFound));
}

#[test]
fn windows_are_checked_in_order() {
    let (dao, list) = setup();
    let p = &list[0];
    assert_eq!(validate_proposal(&dao, &meta(p, 200, 150), 100), Err(DaoError::InvalidWindow));
    assert_eq!(validate_proposal(&dao, &meta(p, 100, 400), 100), Err(DaoError::InvalidWindow));
    assert_eq!(validate_proposal(&dao, &meta(p, 200, 1201), 100), Err(DaoError::DurationTooLong));
    assert_eq!(validate_proposal(&dao, &meta(p, 200, 299), 100), Err(DaoError::DurationTooShort));
    assert_eq!(validate_proposal(&dao, &meta(p, 200, 300), 100), Ok(()));
    assert_eq!(validate_proposal(&dao, &meta(p, 200, 1200), 100), Ok(()));
    let fresh = DaoContract::new(addr("CDAO"));
    assert_eq!(validate_proposal(&fresh, &meta(p, 200, 300), 100), Err(DaoError::NotInitialized));
}

#[test]
fn only_members_propose_and_vote() {
    let (dao, list) = setup();
    assert_eq!(only_member_proposal(&dao, &list[1]), Ok(()));
    assert_eq!(only_member_proposal(&dao, &addr("GX")), Err(DaoError::NotAMember));
    assert_eq!(only_member_vote(&dao, &list[2]), Ok(()));
    assert_eq!(only_member_vote(&dao, &addr("GX")), Err(DaoError::NotAMember));
}

#[test]
fn votes_are_appended_once() {
    let (mut dao, list) = setup();
    let id = general_purpose::write(
        &mut dao,
        GeneralPurpose { metadata: meta(&list[0], 200, 500), actions: "a".to_string() },
        pid(1),
        100,
    )
    .unwrap();
    assert_eq!(write_vote(&mut dao, &id, list[1].clone()), Ok(()));
    assert_eq!(write_vote(&mut dao, &id, list[0].clone()), Ok(()));
    assert_eq!(write_vote(&mut dao, &id, list[1].clone()), Err(DaoError::AlreadyVoted));
    assert_eq!(read_votes(&dao, &id), vec![list[1].clone(), list[0].clone()]);
    assert_eq!(write_vote(&mut dao, &pid(9), list[1].clone()), Err(DaoError::ProposalNotFound));
    assert!(read_votes(&dao, &pid(9)).is_empty());
}

#[test]
fn records_are_read_by_kind() {
    let (mut dao, list) = setup();
    let p = AddMember { metadata: meta(&list[0], 200, 500), candidate: addr("GD") };
    let id = add_member::write(&mut dao, p.clone(), pid(1), 100).unwrap();
    assert_eq!(add_member::read(&dao, &id), Ok(p));
    assert_eq!(general_purpose::read(&dao, &id), Err(DaoError::ProposalNotFound));
    assert_eq!(add_member::read(&dao, &pid(2)), Err(DaoError::ProposalNotFound));
}

#[test]
fn identifiers_compare_byte_for_byte() {
    let mut a = [7u8; 32];
    let x = ProposalId::new(a);
    a[31] = 8;
    let y = ProposalId::new(a);
    assert!(x.same(&x));
    assert!(!x.same(&y));
    assert!(addr("GA").same(&addr("GA")));
    assert!(!addr("GA").same(&addr("GB")));
}

#[test]
fn identifiers_are_sha256_digests_of_the_seed() {
    let env = soroban_sdk::Env::default();
    let id = dao::proposal::generate_unique_id(&env, &[0u8; 64]);
    let expected: [u8; 32] = [
        0xf5, 0xa5, 0xfd, 0x42, 0xd1, 0x6a, 0x20, 0x30, 0x27, 0x98, 0xef, 0x6e, 0xd3, 0x09, 0x97,
        0x9b, 0x43, 0x00, 0x3d, 0x23, 0x20, 0xd9, 0xf0, 0xe8, 0xea, 0x98, 0x31, 0xa9, 0x27, 0x59,
        0xfb, 0x4b,
    ];
    assert_eq!(id, ProposalId::new(expected));
    let other = dao::proposal::generate_unique_id(&env, &[1u8; 64]);
    assert!(!other.same(&id));
}

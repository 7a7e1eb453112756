//! The proposal lifecycle engine: submission, voting and evaluation, shared by
//! the five kinds of proposal.
use vstd::prelude::*;

pub mod add_member;
pub mod general_purpose;
pub mod grant_voting_power;
pub mod remove_member;
pub mod revoke_voting_power;
pub mod status;
pub mod vote;

use soroban_sdk::{Bytes, Env};

use crate::address::{distinct, Address, ProposalId};
use crate::dao_token::has_voting_power;
use crate::error::DaoError;
use crate::member;
use crate::state::{history_kept, lemma_replace_entry, with_status, DaoContract, ProposalEntry};
use crate::types::dao;
use crate::types::proposal::{Metadata, Record, Status, Type};
use status::{derive_status, refreshed, status_at, update_status};

verus! {

#[verifier::external_type_specification]
#[verifier::external_body]
pub struct ExEnv(Env);

/// The SHA-256 digest of `data`.
pub uninterp spec fn sha256_of(data: Seq<u8>) -> Seq<u8>;

/// Relies on soroban_sdk's `Crypto::sha256`: the host's SHA-256 digest of `seed`.
#[verifier::external_body]
fn sha256(env: &Env, seed: &[u8; 64]) -> (r: [u8; 32])
    ensures
        r@ == sha256_of(seed@),
{
    env.crypto().sha256(&Bytes::from_slice(env, seed)).to_array()
}

/// The identifier of a new proposal: the SHA-256 digest of 64 random bytes
/// that the host drew as `seed`.
pub fn generate_unique_id(env: &Env, seed: &[u8; 64]) -> (r: ProposalId)
    ensures
        r@ == sha256_of(seed@),
{
    ProposalId::new(sha256(env, seed))
}

/// `Ok` when no error is given, else that error.
pub open spec fn outcome(e: Option<DaoError>) -> Result<(), DaoError> {
    match e {
        Some(x) => Err(x),
        None => Ok(()),
    }
}

/// The quorum rule: more than `percentage` percent of the members voted.
pub open spec fn reaches_quorum(votes: int, members: int, percentage: int) -> bool {
    votes * 100 > members * percentage
}

/// Why the window of `m` is refused under `config` at time `now`, if it is.
pub open spec fn window_error(config: Option<dao::Metadata>, m: Metadata, now: u64) -> Option<
    DaoError,
> {
    match config {
        None => Some(DaoError::NotInitialized),
        Some(c) => if m.end_time <= m.start_time || m.start_time <= now {
            Some(DaoError::InvalidWindow)
        } else if m.end_time - m.start_time > c.max_proposal_duration {
            Some(DaoError::DurationTooLong)
        } else if m.end_time - m.start_time < c.min_proposal_duration {
            Some(DaoError::DurationTooShort)
        } else {
            None
        },
    }
}

/// Why the candidate of `record` is refused, if it is.
pub open spec fn candidate_error(dao: DaoContract, record: Record) -> Option<DaoError> {
    match record {
        Record::AddMember(p) => if dao.has_member(p.candidate@) {
            Some(DaoError::AlreadyMember)
        } else {
            None
        },
        Record::RemoveMember(p) => if !dao.has_member(p.candidate@) {
            Some(DaoError::UnknownMember)
        } else {
            None
        },
        Record::GrantVotingPower(p) => if !dao.has_member(p.candidate@) {
            Some(DaoError::UnknownMember)
        } else if dao.has_power(p.candidate@) {
            Some(DaoError::AlreadyHasPower)
        } else {
            None
        },
        Record::RevokeVotingPower(p) => if !dao.has_member(p.candidate@) {
            Some(DaoError::UnknownMember)
        } else if !dao.has_power(p.candidate@) {
            Some(DaoError::NoVotingPower)
        } else {
            None
        },
        Record::GeneralPurpose(_) => None,
    }
}

/// Why submitting `record` at time `now` is refused, if it is: the proposer
/// must be a member, then the candidate is checked, then the window.
pub open spec fn submit_error(dao: DaoContract, record: Record, now: u64) -> Option<DaoError> {
    if !dao.has_member(record.metadata().proposer@) {
        Some(DaoError::NotAMember)
    } else if candidate_error(dao, record) is Some {
        candidate_error(dao, record)
    } else {
        window_error(dao.config, record.metadata(), now)
    }
}

/// `new` is `old` with one more proposal at the end: `id`, `record`, `status`
/// and no votes.
pub open spec fn appended(
    old: Seq<ProposalEntry>,
    new: Seq<ProposalEntry>,
    id: ProposalId,
    record: Record,
    status: Status,
) -> bool {
    &&& new.len() == old.len() + 1
    &&& new.subrange(0, old.len() as int) == old
    &&& new.last().id == id
    &&& new.last().record == record
    &&& new.last().status == status
    &&& new.last().votes@.len() == 0
}

/// Submitting `record` under the fresh identifier `id` at time `now` takes `old`
/// to `new` with result `r`: refused with the first failed check and nothing
/// changed, or stored with the status the clock gives and no votes.
pub open spec fn submitted(
    old: DaoContract,
    new: DaoContract,
    record: Record,
    id: ProposalId,
    now: u64,
    r: Result<ProposalId, DaoError>,
) -> bool {
    let m = record.metadata();
    &&& new.wf()
    &&& history_kept(old, new)
    &&& (r is Ok <==> submit_error(old, record, now) is None)
    &&& (r is Ok ==> r == Ok::<ProposalId, DaoError>(id) && appended(
        old.proposals@,
        new.proposals@,
        id,
        record,
        status_at(now, m.start_time, m.end_time),
    ))
    &&& (r is Err ==> r == Err::<ProposalId, DaoError>(submit_error(old, record, now)->Some_0)
        && new == old)
    &&& new.address == old.address
    &&& new.config == old.config
    &&& new.members == old.members
    &&& new.token == old.token
}

/// Evaluating proposal `id` as kind `kind` at time `now` takes `old` to `new`
/// with result `r`: refused with the first failed check and nothing changed, or
/// decided: `Accepted` with its effect when the votes reach the quorum,
/// `Rejected` with no effect otherwise.
pub open spec fn evaluated(
    old: DaoContract,
    new: DaoContract,
    id: Seq<u8>,
    kind: Type,
    now: u64,
    r: Result<(), DaoError>,
) -> bool {
    let e = old.entry(id);
    let accepted = accepts(old, e);
    &&& new.wf()
    &&& history_kept(old, new)
    &&& r == outcome(evaluate_error(old, id, kind, now))
    &&& (r is Err ==> new == old)
    &&& (r is Ok ==> {
        &&& new.proposals@ == old.proposals@.update(
            old.index_of(id),
            with_status(e, if accepted { Status::Accepted } else { Status::Rejected }),
        )
        &&& accepted ==> accepted_effect(old, new, e.record)
        &&& !accepted ==> new.members == old.members && new.token == old.token
    })
    &&& new.address == old.address
    &&& new.config == old.config
}

/// Whether the votes on `e` reach the quorum of `dao`.
pub open spec fn accepts(dao: DaoContract, e: ProposalEntry) -> bool {
    reaches_quorum(e.votes@.len() as int, dao.members@.len() as int, dao.quorum_percentage())
}

/// Why carrying out accepted `record` is refused, if it is.
pub open spec fn accept_error(dao: DaoContract, record: Record) -> Option<DaoError> {
    match record {
        Record::AddMember(p) => if dao.has_member(p.candidate@) {
            Some(DaoError::DuplicateMember)
        } else {
            None
        },
        Record::RemoveMember(p) => if !dao.has_member(p.candidate@) {
            Some(DaoError::UnknownMember)
        } else {
            None
        },
        Record::RevokeVotingPower(p) => if !dao.has_power(p.candidate@) {
            Some(DaoError::InsufficientBalance)
        } else {
            None
        },
        _ => None,
    }
}

/// Why evaluating proposal `id` as a proposal of kind `kind` at time `now` is
/// refused, if it is.
pub open spec fn evaluate_error(dao: DaoContract, id: Seq<u8>, kind: Type, now: u64) -> Option<
    DaoError,
> {
    if !dao.has_proposal(id) {
        Some(DaoError::ProposalNotFound)
    } else {
        let e = dao.entry(id);
        let m = e.record.metadata();
        if e.status.is_terminal() {
            Some(DaoError::AlreadyEvaluated)
        } else if e.record.kind_spec() != kind {
            Some(DaoError::ProposalNotFound)
        } else if status_at(now, m.start_time, m.end_time) != Status::Ended {
            Some(DaoError::ProposalNotEnded)
        } else if accepts(dao, e) {
            accept_error(dao, e.record)
        } else {
            None
        }
    }
}

/// `s` without one occurrence of `a`.
pub open spec fn removed(s: Seq<Address>, t: Seq<Address>, a: Seq<char>) -> bool {
    exists|i: int| 0 <= i < s.len() && #[trigger] s[i]@ == a && t == s.remove(i)
}

/// What accepting `record` does to the members and the ledger.
pub open spec fn accepted_effect(old: DaoContract, new: DaoContract, record: Record) -> bool {
    match record {
        Record::AddMember(p) => new.members@ == old.members@.push(p.candidate) && new.token
            == old.token,
        Record::RemoveMember(p) => removed(old.members@, new.members@, p.candidate@) && new.token
            == old.token,
        Record::GrantVotingPower(p) => new.members == old.members && forall|a: Seq<char>|
            #[trigger] new.token.balance_of(a) == if a == p.candidate@ {
                1
            } else {
                old.token.balance_of(a)
            },
        Record::RevokeVotingPower(p) => new.members == old.members && forall|a: Seq<char>|
            #[trigger] new.token.balance_of(a) == if a == p.candidate@ {
                old.token.balance_of(a) - 1
            } else {
                old.token.balance_of(a)
            },
        Record::GeneralPurpose(_) => new.members == old.members && new.token == old.token,
    }
}

/// The quorum rule on counts: `total_votes * 100 > total_members * quorum_percentage`.
pub fn quorum_reached(total_votes: usize, total_members: usize, quorum_percentage: u32) -> (r: bool)
    ensures
        r == reaches_quorum(total_votes as int, total_members as int, quorum_percentage as int),
{
    let v = total_votes as u128;
    let m = total_members as u128;
    let q = quorum_percentage as u128;
    assert(m * q <= 0xffff_ffff_ffff_ffff * 0xffff_ffff) by (nonlinear_arith)
        requires
            m <= 0xffff_ffff_ffff_ffff,
            q <= 0xffff_ffff,
    ;
    v * 100 > m * q
}

/// Whether the votes on proposal `i` reach the quorum.
fn is_quorum_reached(dao: &DaoContract, i: usize) -> (r: bool)
    requires
        dao.wf(),
        i < dao.proposals@.len(),
    ensures
        r == accepts(*dao, dao.proposals@[i as int]),
{
    let total_votes = dao.proposals[i].votes.len();
    let quorum_percentage = match &dao.config {
        Some(c) => c.min_quorum_percentage,
        None => 0,
    };
    let total_members = member::total(dao);
    quorum_reached(total_votes, total_members, quorum_percentage)
}

/// Checks the window of `metadata` against the configuration at time `now`: it
/// must open strictly later than `now`, close after it opens, and last between
/// the configured minimum and maximum.
pub fn validate_proposal(dao: &DaoContract, metadata: &Metadata, now: u64) -> (r: Result<
    (),
    DaoError,
>)
    ensures
        r == outcome(window_error(dao.config, *metadata, now)),
{
    let config = match &dao.config {
        Some(c) => c,
        None => return Err(DaoError::NotInitialized),
    };
    if metadata.end_time <= metadata.start_time || metadata.start_time <= now {
        return Err(DaoError::InvalidWindow);
    }
    let duration = metadata.end_time - metadata.start_time;
    if duration > config.max_proposal_duration {
        return Err(DaoError::DurationTooLong);
    }
    if duration < config.min_proposal_duration {
        return Err(DaoError::DurationTooShort);
    }
    Ok(())
}

/// Refuses a proposer who is not a member.
pub fn only_member_proposal(dao: &DaoContract, caller: &Address) -> (r: Result<(), DaoError>)
    ensures
        r is Err <==> !dao.has_member(caller@),
        r is Err ==> r == Err::<(), DaoError>(DaoError::NotAMember),
{
    if !member::is_member(dao, caller) {
        return Err(DaoError::NotAMember);
    }
    Ok(())
}

/// Refuses a voter who is not a member.
pub fn only_member_vote(dao: &DaoContract, caller: &Address) -> (r: Result<(), DaoError>)
    ensures
        r is Err <==> !dao.has_member(caller@),
        r is Err ==> r == Err::<(), DaoError>(DaoError::NotAMember),
{
    if !member::is_member(dao, caller) {
        return Err(DaoError::NotAMember);
    }
    Ok(())
}

/// Checks the candidate of `record` against the members and the ledger.
fn check_candidate(dao: &DaoContract, record: &Record) -> (r: Result<(), DaoError>)
    requires
        dao.wf(),
    ensures
        r == outcome(candidate_error(*dao, *record)),
{
    match record {
        Record::AddMember(p) => if member::is_member(dao, &p.candidate) {
            Err(DaoError::AlreadyMember)
        } else {
            Ok(())
        },
        Record::RemoveMember(p) => if !member::is_member(dao, &p.candidate) {
            Err(DaoError::UnknownMember)
        } else {
            Ok(())
        },
        Record::GrantVotingPower(p) => if !member::is_member(dao, &p.candidate) {
            Err(DaoError::UnknownMember)
        } else if has_voting_power(dao, &p.candidate) {
            Err(DaoError::AlreadyHasPower)
        } else {
            Ok(())
        },
        Record::RevokeVotingPower(p) => if !member::is_member(dao, &p.candidate) {
            Err(DaoError::UnknownMember)
        } else if !has_voting_power(dao, &p.candidate) {
            Err(DaoError::NoVotingPower)
        } else {
            Ok(())
        },
        Record::GeneralPurpose(_) => Ok(()),
    }
}

/// Submits `record` under the fresh identifier `proposal_id` at time `now`.
/// The caller has been authenticated as the proposer.
pub fn submit(dao: &mut DaoContract, record: Record, proposal_id: ProposalId, now: u64) -> (r:
    Result<ProposalId, DaoError>)
    requires
        old(dao).wf(),
        !old(dao).has_proposal(proposal_id@),
    ensures
        submitted(*old(dao), *final(dao), record, proposal_id, now, r),
{
    proof {
        crate::state::lemma_history_refl(*dao);
    }
    if only_member_proposal(dao, &record.get_metadata().proposer).is_err() {
        return Err(DaoError::NotAMember);
    }
    match check_candidate(dao, &record) {
        Err(e) => return Err(e),
        Ok(()) => {},
    }
    match validate_proposal(dao, record.get_metadata(), now) {
        Err(e) => return Err(e),
        Ok(()) => {},
    }
    let status = derive_status(now, record.get_metadata());
    let ghost before = dao.proposals@;
    dao.proposals.push(ProposalEntry { id: proposal_id, record, status, votes: Vec::new() });
    proof {
        let p = dao.proposals@;
        assert(p.subrange(0, before.len() as int) =~= before);
        assert forall|x: int, y: int| 0 <= x < y < p.len() implies #[trigger] p[x].id@
            != #[trigger] p[y].id@ by {
            assert(p[x] == before[x]);
            if y < before.len() {
                assert(p[y] == before[y]);
            } else {
                assert(before[x].id@ != proposal_id@);
            }
        }
        assert forall|x: int| 0 <= x < p.len() implies distinct(#[trigger] p[x].votes@) by {
            if x < before.len() {
                assert(p[x] == before[x]);
            }
        }
        assert forall|x: int| 0 <= x < p.len() implies (#[trigger] p[x]).record.metadata().start_time
            < p[x].record.metadata().end_time by {
            if x < before.len() {
                assert(p[x] == before[x]);
            }
        }
        assert forall|x: int| 0 <= x < before.len() implies (#[trigger] before[x]).votes@.subrange(
            0,
            before[x].votes@.len() as int,
        ) == before[x].votes@ by {
            assert(before[x].votes@.subrange(0, before[x].votes@.len() as int) =~= before[x].votes@);
        }
    }
    Ok(proposal_id)
}

/// Why voting is refused on a proposal whose refreshed status is `s`, if it is.
pub open spec fn votable_error(s: Status) -> Option<DaoError> {
    match s {
        Status::Active => None,
        Status::NotStarted => Some(DaoError::ProposalNotStarted),
        _ => Some(DaoError::ProposalEnded),
    }
}

/// Refreshes the status of proposal `proposal_id` and accepts it for voting only
/// while it is `Active`. The refreshed status is kept even when voting is refused.
pub fn check_proposal(dao: &mut DaoContract, proposal_id: &ProposalId, now: u64) -> (r: Result<
    (),
    DaoError,
>)
    requires
        old(dao).wf(),
    ensures
        final(dao).wf(),
        history_kept(*old(dao), *final(dao)),
        !old(dao).has_proposal(proposal_id@) ==> r == Err::<(), DaoError>(
            DaoError::ProposalNotFound,
        ) && *final(dao) == *old(dao),
        old(dao).has_proposal(proposal_id@) ==> {
            let e = old(dao).entry(proposal_id@);
            let s = refreshed(e.status, now, e.record.metadata());
            &&& r == outcome(votable_error(s))
            &&& final(dao).proposals@ == old(dao).proposals@.update(
                old(dao).index_of(proposal_id@),
                with_status(e, s),
            )
        },
        final(dao).address == old(dao).address,
        final(dao).config == old(dao).config,
        final(dao).members == old(dao).members,
        final(dao).token == old(dao).token,
{
    match update_status(dao, proposal_id, now) {
        Err(e) => Err(e),
        Ok(Status::Active) => Ok(()),
        Ok(Status::NotStarted) => Err(DaoError::ProposalNotStarted),
        Ok(_) => Err(DaoError::ProposalEnded),
    }
}

/// Carries out accepted proposal `i` on the members or the ledger.
fn apply_accepted(dao: &mut DaoContract, i: usize) -> (r: Result<(), DaoError>)
    requires
        old(dao).wf(),
        i < old(dao).proposals@.len(),
    ensures
        final(dao).wf(),
        r == outcome(accept_error(*old(dao), old(dao).proposals@[i as int].record)),
        r is Err ==> *final(dao) == *old(dao),
        r is Ok ==> accepted_effect(*old(dao), *final(dao), old(dao).proposals@[i as int].record),
        final(dao).address == old(dao).address,
        final(dao).config == old(dao).config,
        final(dao).proposals == old(dao).proposals,
        final(dao).token.admin == old(dao).token.admin,
{
    match &dao.proposals[i].record {
        Record::AddMember(p) => {
            let c = p.candidate.clone();
            let r = match member::add_member(dao, c) {
                Ok(()) => Ok(()),
                Err(e) => Err(e),
            };
            r
        },
        Record::RemoveMember(p) => {
            let c = p.candidate.clone();
            let r = match member::remove_member(dao, &c) {
                Ok(()) => Ok(()),
                Err(e) => Err(e),
            };
            proof {
                if r is Ok {
                    let k = choose|k: int|
                        0 <= k < old(dao).members@.len() && #[trigger] old(dao).members@[k]@ == c@
                            && dao.members@ == old(dao).members@.remove(k);
                    assert(removed(old(dao).members@, dao.members@, c@));
                }
            }
            r
        },
        Record::GrantVotingPower(p) => {
            let c = p.candidate.clone();
            let r = match grant_voting_power::grant(dao, c) {
                Ok(()) => Ok(()),
                Err(_) => Err(DaoError::NotInitialized),
            };
            r
        },
        Record::RevokeVotingPower(p) => {
            let c = p.candidate.clone();
            let r = match revoke_voting_power::revoke(dao, c) {
                Ok(()) => Ok(()),
                Err(e) => Err(e),
            };
            r
        },
        Record::GeneralPurpose(_) => Ok(()),
    }
}

/// Evaluates proposal `proposal_id`, which must be of kind `kind`, at time `now`:
/// once its window has closed it becomes `Accepted` and takes effect when its
/// votes reach the quorum, and `Rejected` otherwise.
pub fn evaluate_proposal(dao: &mut DaoContract, proposal_id: &ProposalId, kind: Type, now: u64) -> (r:
    Result<(), DaoError>)
    requires
        old(dao).wf(),
    ensures
        evaluated(*old(dao), *final(dao), proposal_id@, kind, now, r),
{
    proof {
        crate::state::lemma_history_refl(*dao);
    }
    let i = match dao.find_proposal(proposal_id) {
        None => return Err(DaoError::ProposalNotFound),
        Some(i) => i,
    };
    let stored = dao.proposals[i].status;
    if matches!(stored, Status::Accepted) || matches!(stored, Status::Rejected) {
        return Err(DaoError::AlreadyEvaluated);
    }
    if dao.proposals[i].record.kind() != kind {
        return Err(DaoError::ProposalNotFound);
    }
    if derive_status(now, dao.proposals[i].record.get_metadata()) != Status::Ended {
        return Err(DaoError::ProposalNotEnded);
    }
    let accepted = is_quorum_reached(dao, i);
    if accepted {
        match apply_accepted(dao, i) {
            Err(e) => return Err(e),
            Ok(()) => {},
        }
        dao.proposals[i].status = Status::Accepted;
    } else {
        dao.proposals[i].status = Status::Rejected;
    }
    proof {
        let e = old(dao).proposals@[i as int];
        let s = if accepted { Status::Accepted } else { Status::Rejected };
        assert(dao.proposals@ =~= old(dao).proposals@.update(i as int, with_status(e, s)));
        assert(e.votes@.subrange(0, e.votes@.len() as int) =~= e.votes@);
        lemma_replace_entry(*old(dao), *dao, i as int);
    }
    Ok(())
}

} // verus!

//! Laws of the organisation, proved from the contracts of its operations.
use vstd::prelude::*;

use crate::address::{distinct, holds, Address};
use crate::error::DaoError;
use crate::proposal::status::{refreshed, status_at};
use crate::proposal::vote::{vote_error, voted};
use crate::proposal::{accepts, evaluate_error, evaluated, submit_error};
use crate::state::{history_kept, DaoContract};
use crate::types::proposal::{GrantVotingPower, Record, Status, Type};

verus! {

/// An organisation with no members yet is initialised with a batch of at least
/// three members exactly when no identity repeats in the batch.
pub proof fn lemma_initialization_needs_distinct_members(dao: DaoContract, initial: Seq<Address>)
    requires
        dao.members@.len() == 0,
    ensures
        distinct(dao.members@ + initial) <==> distinct(initial),
{
    assert(dao.members@ + initial =~= initial);
}

/// The clock only moves a window's status forward: a window that has ended is
/// still ended at every later time, and one that has started never shows as not
/// started again.
pub proof fn lemma_status_monotone(start: u64, end: u64, t1: u64, t2: u64)
    requires
        t1 <= t2,
    ensures
        status_at(t1, start, end) == Status::Ended ==> status_at(t2, start, end) == Status::Ended,
        status_at(t1, start, end) != Status::NotStarted ==> status_at(t2, start, end)
            != Status::NotStarted,
{
}

/// Once the clock has passed the end of a stored proposal, bringing its status
/// up to date never gives `Active` or `NotStarted`; a final status is kept.
pub proof fn lemma_refresh_after_end(dao: DaoContract, id: Seq<u8>, now: u64)
    requires
        dao.wf(),
        dao.has_proposal(id),
        now > dao.entry(id).record.metadata().end_time,
    ensures
        refreshed(dao.entry(id).status, now, dao.entry(id).record.metadata()) != Status::Active,
        refreshed(dao.entry(id).status, now, dao.entry(id).record.metadata())
            != Status::NotStarted,
        dao.entry(id).status.is_terminal() ==> refreshed(
            dao.entry(id).status,
            now,
            dao.entry(id).record.metadata(),
        ) == dao.entry(id).status,
{
    let i = dao.index_of(id);
    assert(dao.proposals@[i].record.metadata().start_time < dao.proposals@[i].record.metadata().end_time);
}

/// Keeping the history is transitive: over any run of operations proposals stay
/// in place, vote lists only grow and final statuses stay final.
pub proof fn lemma_history_trans(a: DaoContract, b: DaoContract, c: DaoContract)
    requires
        history_kept(a, b),
        history_kept(b, c),
    ensures
        history_kept(a, c),
{
    assert forall|x: int| 0 <= x < a.proposals@.len() implies {
        let p = #[trigger] a.proposals@[x];
        let r = c.proposals@[x];
        &&& r.id == p.id
        &&& r.record == p.record
        &&& p.votes@.len() <= r.votes@.len()
        &&& r.votes@.subrange(0, p.votes@.len() as int) == p.votes@
        &&& p.status.is_terminal() ==> r.status == p.status
    } by {
        let p = a.proposals@[x];
        let q = b.proposals@[x];
        let r = c.proposals@[x];
        assert(r.votes@.subrange(0, q.votes@.len() as int) == q.votes@);
        assert(q.votes@.subrange(0, p.votes@.len() as int) == p.votes@);
        assert(r.votes@.subrange(0, p.votes@.len() as int) =~= q.votes@.subrange(
            0,
            p.votes@.len() as int,
        ));
    }
}

/// The quorum law: an evaluation that succeeds accepts the proposal exactly when
/// its vote count times 100 exceeds the member count times the quorum
/// percentage, and rejects it otherwise.
pub proof fn lemma_quorum_decides(
    old: DaoContract,
    new: DaoContract,
    id: Seq<u8>,
    kind: Type,
    now: u64,
)
    requires
        old.wf(),
        evaluated(old, new, id, kind, now, Ok(())),
    ensures
        old.config is Some,
        new.has_proposal(id),
        new.entry(id).status == Status::Accepted <==> old.entry(id).votes@.len() * 100
            > old.members@.len() * old.config->Some_0.min_quorum_percentage,
        new.entry(id).status == Status::Rejected <==> old.entry(id).votes@.len() * 100
            <= old.members@.len() * old.config->Some_0.min_quorum_percentage,
{
    let i = old.index_of(id);
    new.lemma_index_of(id, i);
}

/// A voter cannot vote twice on one proposal: after a vote is taken, every later
/// vote by the same voter on it is refused, with `AlreadyVoted` while the
/// proposal is still open.
pub proof fn lemma_no_second_vote(
    d0: DaoContract,
    d1: DaoContract,
    voter: Address,
    id: Seq<u8>,
    t1: u64,
    t2: u64,
)
    requires
        voted(d0, d1, voter, id, t1, Ok(())),
    ensures
        vote_error(d1, voter@, id, t2) is Some,
        refreshed(d1.entry(id).status, t2, d1.entry(id).record.metadata()) == Status::Active
            ==> vote_error(d1, voter@, id, t2) == Some(DaoError::AlreadyVoted),
{
    let i = d0.index_of(id);
    d1.lemma_index_of(id, i);
    let v = d1.entry(id).votes@;
    assert(v[v.len() - 1] == voter);
    assert(holds(v, voter@));
}

/// A decided proposal cannot be evaluated again: after an evaluation succeeds,
/// every later evaluation of it is refused with `AlreadyEvaluated` and changes
/// nothing.
pub proof fn lemma_no_second_evaluation(
    d0: DaoContract,
    d1: DaoContract,
    d2: DaoContract,
    id: Seq<u8>,
    kind: Type,
    t1: u64,
    later_kind: Type,
    t2: u64,
    r2: Result<(), DaoError>,
)
    requires
        evaluated(d0, d1, id, kind, t1, Ok(())),
        evaluated(d1, d2, id, later_kind, t2, r2),
    ensures
        r2 == Err::<(), DaoError>(DaoError::AlreadyEvaluated),
        d2 == d1,
{
    let i = d0.index_of(id);
    d1.lemma_index_of(id, i);
    assert(evaluate_error(d1, id, later_kind, t2) == Some(DaoError::AlreadyEvaluated));
}

/// Voting power is granted to members without it: with the proposer a member, a
/// grant for a non-member is refused with `UnknownMember`, and one for a member
/// who already holds power with `AlreadyHasPower`.
pub proof fn lemma_grant_needs_powerless_member(dao: DaoContract, p: GrantVotingPower, now: u64)
    requires
        dao.has_member(p.metadata.proposer@),
    ensures
        !dao.has_member(p.candidate@) ==> submit_error(dao, Record::GrantVotingPower(p), now)
            == Some(DaoError::UnknownMember),
        dao.has_member(p.candidate@) && dao.has_power(p.candidate@) ==> submit_error(
            dao,
            Record::GrantVotingPower(p),
            now,
        ) == Some(DaoError::AlreadyHasPower),
{
}

/// Accepting a grant leaves the candidate with voting power; accepting a
/// revocation takes away the power the candidate had.
pub proof fn lemma_power_flips(old: DaoContract, new: DaoContract, id: Seq<u8>, kind: Type, now: u64)
    requires
        old.wf(),
        evaluated(old, new, id, kind, now, Ok(())),
        accepts(old, old.entry(id)),
    ensures
        old.entry(id).record matches Record::GrantVotingPower(p) ==> new.has_power(p.candidate@),
        old.entry(id).record matches Record::RevokeVotingPower(p) ==> old.has_power(p.candidate@)
            && !new.has_power(p.candidate@),
{
    match old.entry(id).record {
        Record::RevokeVotingPower(p) => {
            old.token.lemma_balance_at_most(p.candidate@, 1);
        },
        _ => {},
    }
}

} // verus!

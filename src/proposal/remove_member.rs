//! Proposals that remove a member.
use vstd::prelude::*;

use crate::address::ProposalId;
use crate::error::DaoError;
use crate::state::DaoContract;
use crate::types::proposal::{RemoveMember, Record, Type};
use super::{evaluate_proposal, evaluated, submit, submitted};

verus! {

/// Submits `proposal` under the fresh identifier `proposal_id` at time `now`.
/// The caller has been authenticated as the proposer.
pub fn write(dao: &mut DaoContract, proposal: RemoveMember, proposal_id: ProposalId, now: u64) -> (r: Result<
    ProposalId,
    DaoError,
>)
    requires
        old(dao).wf(),
        !old(dao).has_proposal(proposal_id@),
    ensures
        submitted(*old(dao), *final(dao), Record::RemoveMember(proposal), proposal_id, now, r),
{
    submit(dao, Record::RemoveMember(proposal), proposal_id, now)
}

/// The stored proposal `proposal_id`, which must be of this kind.
pub fn read(dao: &DaoContract, proposal_id: &ProposalId) -> (r: Result<RemoveMember, DaoError>)
    requires
        dao.wf(),
    ensures
        match r {
            Ok(p) => dao.has_proposal(proposal_id@) && dao.entry(proposal_id@).record
                == Record::RemoveMember(p),
            Err(e) => e == DaoError::ProposalNotFound && !(dao.has_proposal(proposal_id@)
                && dao.entry(proposal_id@).record is RemoveMember),
        },
{
    match dao.find_proposal(proposal_id) {
        None => Err(DaoError::ProposalNotFound),
        Some(i) => match &dao.proposals[i].record {
            Record::RemoveMember(p) => Ok(p.clone()),
            _ => Err(DaoError::ProposalNotFound),
        },
    }
}

/// Evaluates proposal `proposal_id` at time `now`: once its window has closed and the
/// quorum is reached, the candidate leaves the members.
pub fn evaluate(dao: &mut DaoContract, proposal_id: &ProposalId, now: u64) -> (r: Result<
    (),
    DaoError,
>)
    requires
        old(dao).wf(),
    ensures
        evaluated(*old(dao), *final(dao), proposal_id@, Type::RemoveMember, now, r),
{
    evaluate_proposal(dao, proposal_id, Type::RemoveMember, now)
}

} // verus!

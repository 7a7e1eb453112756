//! Proposals that give a member one unit of voting power.
use vstd::prelude::*;

use crate::address::{Address, ProposalId};
use crate::dao_token;
use crate::error::DaoError;
use crate::state::{only_token_changed, DaoContract};
use crate::types::proposal::{GrantVotingPower, Record, Type};
use super::{evaluate_proposal, evaluated, submit, submitted};

verus! {

/// Submits `proposal` under the fresh identifier `proposal_id` at time `now`.
/// The caller has been authenticated as the proposer.
pub fn write(dao: &mut DaoContract, proposal: GrantVotingPower, proposal_id: ProposalId, now: u64) -> (r: Result<
    ProposalId,
    DaoError,
>)
    requires
        old(dao).wf(),
        !old(dao).has_proposal(proposal_id@),
    ensures
        submitted(*old(dao), *final(dao), Record::GrantVotingPower(proposal), proposal_id, now, r),
{
    submit(dao, Record::GrantVotingPower(proposal), proposal_id, now)
}

/// The stored proposal `proposal_id`, which must be of this kind.
pub fn read(dao: &DaoContract, proposal_id: &ProposalId) -> (r: Result<GrantVotingPower, DaoError>)
    requires
        dao.wf(),
    ensures
        match r {
            Ok(p) => dao.has_proposal(proposal_id@) && dao.entry(proposal_id@).record
                == Record::GrantVotingPower(p),
            Err(e) => e == DaoError::ProposalNotFound && !(dao.has_proposal(proposal_id@)
                && dao.entry(proposal_id@).record is GrantVotingPower),
        },
{
    match dao.find_proposal(proposal_id) {
        None => Err(DaoError::ProposalNotFound),
        Some(i) => match &dao.proposals[i].record {
            Record::GrantVotingPower(p) => Ok(p.clone()),
            _ => Err(DaoError::ProposalNotFound),
        },
    }
}

/// Evaluates proposal `proposal_id` at time `now`: once its window has closed and
/// the quorum is reached, the candidate is given one unit of voting power.
pub fn evaluate(dao: &mut DaoContract, proposal_id: &ProposalId, now: u64) -> (r: Result<
    (),
    DaoError,
>)
    requires
        old(dao).wf(),
    ensures
        evaluated(*old(dao), *final(dao), proposal_id@, Type::GrantVotingPower, now, r),
{
    evaluate_proposal(dao, proposal_id, Type::GrantVotingPower, now)
}

/// Sets the ledger balance of `member` to one unit.
pub fn grant(dao: &mut DaoContract, member: Address) -> (r: Result<(), DaoError>)
    requires
        old(dao).wf(),
    ensures
        final(dao).wf(),
        only_token_changed(*old(dao), *final(dao)),
        final(dao).token.admin == old(dao).token.admin,
        !old(dao).initialized() <==> r == Err::<(), DaoError>(DaoError::NotInitialized),
        r is Ok <==> old(dao).initialized(),
        r is Err ==> *final(dao) == *old(dao),
        r is Ok ==> forall|a: Seq<char>| #[trigger]
            final(dao).token.balance_of(a) == if a == member@ {
                1
            } else {
                old(dao).token.balance_of(a)
            },
{
    match dao_token::mint(dao, member, 1) {
        Ok(()) => Ok(()),
        Err(_) => Err(DaoError::NotInitialized),
    }
}

} // verus!

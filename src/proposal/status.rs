//! The status state machine: time decides `NotStarted`, `Active` and `Ended`;
//! evaluation alone decides `Accepted` or `Rejected`, which are final.
use vstd::prelude::*;

use crate::address::ProposalId;
use crate::error::DaoError;
use crate::state::{history_kept, lemma_replace_entry, with_status, DaoContract};
use crate::types::proposal::{Metadata, Status};

verus! {

/// The status that the clock gives a window `[start, end]` at time `now`.
pub open spec fn status_at(now: u64, start: u64, end: u64) -> Status {
    if now < start {
        Status::NotStarted
    } else if now > end {
        Status::Ended
    } else {
        Status::Active
    }
}

/// A stored status brought up to date: a final status stays, any other is
/// recomputed from the clock.
pub open spec fn refreshed(stored: Status, now: u64, m: Metadata) -> Status {
    if stored.is_terminal() {
        stored
    } else {
        status_at(now, m.start_time, m.end_time)
    }
}

/// The status that the clock gives `metadata`'s window at time `now`.
pub fn derive_status(now: u64, metadata: &Metadata) -> (r: Status)
    ensures
        r == status_at(now, metadata.start_time, metadata.end_time),
{
    if now < metadata.start_time {
        Status::NotStarted
    } else if now > metadata.end_time {
        Status::Ended
    } else {
        Status::Active
    }
}

/// Stores `status` as the status of proposal `proposal_id`.
pub fn write_status(dao: &mut DaoContract, proposal_id: &ProposalId, status: Status) -> (r: Result<
    (),
    DaoError,
>)
    requires
        old(dao).wf(),
    ensures
        final(dao).wf(),
        !old(dao).has_proposal(proposal_id@) <==> r == Err::<(), DaoError>(
            DaoError::ProposalNotFound,
        ),
        r is Err ==> *final(dao) == *old(dao),
        r is Ok ==> final(dao).proposals@ == old(dao).proposals@.update(
            old(dao).index_of(proposal_id@),
            with_status(old(dao).entry(proposal_id@), status),
        ),
        final(dao).address == old(dao).address,
        final(dao).config == old(dao).config,
        final(dao).members == old(dao).members,
        final(dao).token == old(dao).token,
{
    match dao.find_proposal(proposal_id) {
        None => Err(DaoError::ProposalNotFound),
        Some(i) => {
            dao.proposals[i].status = status;
            proof {
                assert(dao.proposals@ =~= old(dao).proposals@.update(
                    i as int,
                    with_status(old(dao).proposals@[i as int], status),
                ));
            }
            Ok(())
        },
    }
}

/// The stored status of proposal `proposal_id`.
pub fn read_status(dao: &DaoContract, proposal_id: &ProposalId) -> (r: Result<Status, DaoError>)
    requires
        dao.wf(),
    ensures
        dao.has_proposal(proposal_id@) ==> r == Ok::<Status, DaoError>(
            dao.entry(proposal_id@).status,
        ),
        !dao.has_proposal(proposal_id@) ==> r == Err::<Status, DaoError>(
            DaoError::ProposalNotFound,
        ),
{
    match dao.find_proposal(proposal_id) {
        None => Err(DaoError::ProposalNotFound),
        Some(i) => Ok(dao.proposals[i].status),
    }
}

/// Brings the stored status of proposal `proposal_id` up to date with the clock
/// and returns it; a final status is left as it is.
pub fn update_status(dao: &mut DaoContract, proposal_id: &ProposalId, now: u64) -> (r: Result<
    Status,
    DaoError,
>)
    requires
        old(dao).wf(),
    ensures
        final(dao).wf(),
        history_kept(*old(dao), *final(dao)),
        !old(dao).has_proposal(proposal_id@) ==> r == Err::<Status, DaoError>(
            DaoError::ProposalNotFound,
        ) && *final(dao) == *old(dao),
        old(dao).has_proposal(proposal_id@) ==> {
            let e = old(dao).entry(proposal_id@);
            let s = refreshed(e.status, now, e.record.metadata());
            &&& r == Ok::<Status, DaoError>(s)
            &&& final(dao).proposals@ == old(dao).proposals@.update(
                old(dao).index_of(proposal_id@),
                with_status(e, s),
            )
        },
        final(dao).address == old(dao).address,
        final(dao).config == old(dao).config,
        final(dao).members == old(dao).members,
        final(dao).token == old(dao).token,
{
    match dao.find_proposal(proposal_id) {
        None => {
            proof {
                crate::state::lemma_history_refl(*dao);
            }
            Err(DaoError::ProposalNotFound)
        },
        Some(i) => {
            let stored = dao.proposals[i].status;
            let s = if matches!(stored, Status::Accepted) || matches!(stored, Status::Rejected) {
                stored
            } else {
                derive_status(now, dao.proposals[i].record.get_metadata())
            };
            dao.proposals[i].status = s;
            proof {
                let e = old(dao).proposals@[i as int];
                assert(dao.proposals@ =~= old(dao).proposals@.update(i as int, with_status(e, s)));
                assert(e.votes@.subrange(0, e.votes@.len() as int) =~= e.votes@);
                lemma_replace_entry(*old(dao), *dao, i as int);
            }
            Ok(s)
        },
    }
}

} // verus!

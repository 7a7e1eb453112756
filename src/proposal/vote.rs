//! Votes: each member with voting power may vote once on an active proposal.
use vstd::prelude::*;

use crate::address::{contains, holds, Address, ProposalId};
use crate::dao_token::has_voting_power;
use crate::error::DaoError;
use crate::state::{history_kept, lemma_history_refl, lemma_replace_entry, DaoContract};
use super::status::refreshed;
use super::{check_proposal, only_member_vote, outcome, votable_error};

verus! {

/// Why `voter` may not vote on proposal `id` at time `now`, if they may not.
pub open spec fn vote_error(dao: DaoContract, voter: Seq<char>, id: Seq<u8>, now: u64) -> Option<
    DaoError,
> {
    if !dao.has_member(voter) {
        Some(DaoError::NotAMember)
    } else if !dao.has_power(voter) {
        Some(DaoError::NoVotingPower)
    } else if !dao.has_proposal(id) {
        Some(DaoError::ProposalNotFound)
    } else {
        let e = dao.entry(id);
        let s = refreshed(e.status, now, e.record.metadata());
        if votable_error(s) is Some {
            votable_error(s)
        } else if holds(e.votes@, voter) {
            Some(DaoError::AlreadyVoted)
        } else {
            None
        }
    }
}

/// Voting by `voter` on proposal `id` at time `now` takes `old` to `new` with
/// result `r`. Once the voter and the proposal are known, the proposal's status
/// is refreshed, and kept so even when the vote is then refused; the voter is
/// appended to its votes when the vote is taken.
pub open spec fn voted(
    old: DaoContract,
    new: DaoContract,
    voter: Address,
    id: Seq<u8>,
    now: u64,
    r: Result<(), DaoError>,
) -> bool {
    &&& new.wf()
    &&& history_kept(old, new)
    &&& r == outcome(vote_error(old, voter@, id, now))
    &&& !(old.has_member(voter@) && old.has_power(voter@) && old.has_proposal(id)) ==> new == old
    &&& old.has_member(voter@) && old.has_power(voter@) && old.has_proposal(id) ==> {
        let i = old.index_of(id);
        let e = old.entry(id);
        let f = new.proposals@[i];
        &&& new.proposals@ == old.proposals@.update(i, f)
        &&& f.id == e.id
        &&& f.record == e.record
        &&& f.status == refreshed(e.status, now, e.record.metadata())
        &&& f.votes@ == if r is Ok {
            e.votes@.push(voter)
        } else {
            e.votes@
        }
    }
    &&& new.address == old.address
    &&& new.config == old.config
    &&& new.members == old.members
    &&& new.token == old.token
}

/// Records the vote of `voter` on proposal `id` at time `now`. Once the voter
/// and the proposal are known, the proposal's refreshed status is kept even if
/// the vote is then refused.
pub fn vote(dao: &mut DaoContract, voter: Address, proposal_id: &ProposalId, now: u64) -> (r:
    Result<(), DaoError>)
    requires
        old(dao).wf(),
    ensures
        voted(*old(dao), *final(dao), voter, proposal_id@, now, r),
{
    proof {
        lemma_history_refl(*dao);
    }
    if only_member_vote(dao, &voter).is_err() {
        return Err(DaoError::NotAMember);
    }
    if !has_voting_power(dao, &voter) {
        return Err(DaoError::NoVotingPower);
    }
    match check_proposal(dao, proposal_id, now) {
        Err(e) => return Err(e),
        Ok(()) => {},
    }
    let ghost mid = *dao;
    proof {
        mid.lemma_index_of(proposal_id@, old(dao).index_of(proposal_id@));
    }
    let r = write_vote(dao, proposal_id, voter);
    proof {
        let i = old(dao).index_of(proposal_id@);
        assert(dao.proposals@ =~= old(dao).proposals@.update(i, dao.proposals@[i]));
    }
    r
}

/// Appends `voter` to the votes on proposal `proposal_id`, refusing a second
/// vote by the same voter.
pub fn write_vote(dao: &mut DaoContract, proposal_id: &ProposalId, voter: Address) -> (r: Result<
    (),
    DaoError,
>)
    requires
        old(dao).wf(),
    ensures
        final(dao).wf(),
        history_kept(*old(dao), *final(dao)),
        !old(dao).has_proposal(proposal_id@) ==> r == Err::<(), DaoError>(
            DaoError::ProposalNotFound,
        ),
        old(dao).has_proposal(proposal_id@) ==> (holds(old(dao).entry(proposal_id@).votes@, voter@)
            <==> r == Err::<(), DaoError>(DaoError::AlreadyVoted)),
        old(dao).has_proposal(proposal_id@) && !holds(old(dao).entry(proposal_id@).votes@, voter@)
            ==> r == Ok::<(), DaoError>(()),
        r is Err ==> *final(dao) == *old(dao),
        r is Ok ==> {
            let i = old(dao).index_of(proposal_id@);
            let e = old(dao).entry(proposal_id@);
            let f = final(dao).proposals@[i];
            &&& final(dao).proposals@ == old(dao).proposals@.update(i, f)
            &&& f.id == e.id
            &&& f.record == e.record
            &&& f.status == e.status
            &&& f.votes@ == e.votes@.push(voter)
        },
        final(dao).address == old(dao).address,
        final(dao).config == old(dao).config,
        final(dao).members == old(dao).members,
        final(dao).token == old(dao).token,
{
    proof {
        lemma_history_refl(*dao);
    }
    let i = match dao.find_proposal(proposal_id) {
        None => return Err(DaoError::ProposalNotFound),
        Some(i) => i,
    };
    if contains(&dao.proposals[i].votes, &voter) {
        return Err(DaoError::AlreadyVoted);
    }
    let ghost v = dao.proposals@[i as int].votes@;
    dao.proposals[i].votes.push(voter);
    proof {
        let n = dao.proposals@[i as int].votes@;
        assert(n == v.push(voter));
        assert forall|x: int, y: int| 0 <= x < y < n.len() implies #[trigger] n[x]@
            != #[trigger] n[y]@ by {
            assert(n[x] == v[x]);
            if y < v.len() {
                assert(n[y] == v[y]);
            } else {
                assert(v[x]@ != voter@);
            }
        }
        assert(n.subrange(0, v.len() as int) =~= v);
        assert(dao.proposals@ =~= old(dao).proposals@.update(i as int, dao.proposals@[i as int]));
        lemma_replace_entry(*old(dao), *dao, i as int);
    }
    Ok(())
}

/// The voters on proposal `proposal_id` in the order they voted; none for an
/// unknown proposal.
pub fn read_votes(dao: &DaoContract, proposal_id: &ProposalId) -> (r: Vec<Address>)
    requires
        dao.wf(),
    ensures
        dao.has_proposal(proposal_id@) ==> r@ == dao.entry(proposal_id@).votes@,
        !dao.has_proposal(proposal_id@) ==> r@.len() == 0,
{
    match dao.find_proposal(proposal_id) {
        None => Vec::new(),
        Some(i) => {
            let r = dao.proposals[i].votes.clone();
            proof {
                assert(r@ =~= dao.proposals@[i as int].votes@);
            }
            r
        },
    }
}

} // verus!

//! The organisation's public operations.
use vstd::prelude::*;

use crate::address::{distinct, Address, ProposalId};
use crate::dao_token;
use crate::error::DaoError;
use crate::member;
use crate::proposal;
use crate::proposal::status::read_status;
use crate::proposal::vote::voted;
use crate::proposal::{evaluated, submitted};
use crate::state::{history_kept, DaoContract};
use crate::types::dao;
use crate::types::data_key;
use crate::types::proposal::{
    AddMember,
    GeneralPurpose,
    GrantVotingPower,
    Record,
    RemoveMember,
    RevokeVotingPower,
    Status,
    Type,
};

verus! {

impl DaoContract {
    /// Sets the organisation up once: at least three distinct initial members,
    /// the configuration, and a linked ledger that gives each member one unit of
    /// voting power.
    pub fn initialize(&mut self, initial_members: Vec<Address>, metadata: dao::Metadata) -> (r:
        Result<(), DaoError>)
        requires
            old(self).wf(),
        ensures
            final(self).wf(),
            history_kept(*old(self), *final(self)),
            initial_members@.len() < 3 ==> r == Err::<(), DaoError>(
                DaoError::InsufficientInitialMembers,
            ),
            initial_members@.len() >= 3 && old(self).initialized() ==> r == Err::<(), DaoError>(
                DaoError::AlreadyInitialized,
            ),
            initial_members@.len() >= 3 && !old(self).initialized() ==> (r is Ok <==> distinct(
                old(self).members@ + initial_members@,
            )),
            r is Err && initial_members@.len() >= 3 && !old(self).initialized() ==> r
                == Err::<(), DaoError>(DaoError::DuplicateMember),
            r is Err ==> *final(self) == *old(self),
            r is Ok ==> {
                &&& final(self).config == Some(metadata)
                &&& final(self).members@ == old(self).members@ + initial_members@
                &&& final(self).token.admin == Some(old(self).address)
                &&& forall|a: Seq<char>|
                    #[trigger] final(self).token.balance_of(a) == if crate::address::holds(
                        initial_members@,
                        a,
                    ) {
                        1
                    } else {
                        old(self).token.balance_of(a)
                    }
            },
            final(self).address == old(self).address,
            final(self).proposals == old(self).proposals,
    {
        proof {
            crate::state::lemma_history_refl(*self);
        }
        if initial_members.len() < 3 {
            return Err(DaoError::InsufficientInitialMembers);
        }
        if self.config.is_some() {
            return Err(DaoError::AlreadyInitialized);
        }
        let ghost start = *self;
        match member::add_members(self, initial_members.clone()) {
            Err(e) => return Err(e),
            Ok(()) => {},
        }
        let ghost joined = *self;
        let admin = self.address.clone();
        // The ledger has no admin before initialisation, so this cannot be refused.
        let _ = self.token.initialize(admin, "VoteToken".to_owned(), "VTK".to_owned());
        self.config = Some(metadata);
        let mut i: usize = 0;
        while i < initial_members.len()
            invariant
                self.wf(),
                i <= initial_members@.len(),
                self.address == start.address,
                self.config == Some(metadata),
                self.members == joined.members,
                self.proposals == start.proposals,
                self.token.admin == Some(start.address),
                forall|a: Seq<char>|
                    #[trigger] self.token.balance_of(a) == if crate::address::holds(
                        initial_members@.subrange(0, i as int),
                        a,
                    ) {
                        1
                    } else {
                        start.token.balance_of(a)
                    },
            decreases initial_members@.len() - i,
        {
            let ghost before = *self;
            let m = initial_members[i].clone();
            // The organisation is initialised, so granting cannot be refused.
            let _ = proposal::grant_voting_power::grant(self, m);
            proof {
                let prefix = initial_members@.subrange(0, i + 1);
                assert forall|a: Seq<char>| #[trigger]
                    self.token.balance_of(a) == if crate::address::holds(prefix, a) {
                        1
                    } else {
                        start.token.balance_of(a)
                    } by {
                    let old_prefix = initial_members@.subrange(0, i as int);
                    if a == initial_members@[i as int]@ {
                        assert(prefix[i as int] == initial_members@[i as int]);
                    } else {
                        if crate::address::holds(prefix, a) {
                            let k = choose|k: int| 0 <= k < prefix.len() && #[trigger] prefix[k]@ == a;
                            assert(old_prefix[k] == prefix[k]);
                        }
                        if crate::address::holds(old_prefix, a) {
                            let k = choose|k: int|
                                0 <= k < old_prefix.len() && #[trigger] old_prefix[k]@ == a;
                            assert(old_prefix[k] == prefix[k]);
                        }
                    }
                }
            }
            i = i + 1;
        }
        proof {
            assert(initial_members@.subrange(0, initial_members@.len() as int) =~= initial_members@);
        }
        Ok(())
    }

    /// Whether the store holds an entry under the organisation-wide `key`.
    pub fn has(&self, key: &data_key::Dao) -> (r: bool)
        ensures
            r == match *key {
                data_key::Dao::Members => self.members@.len() > 0,
                data_key::Dao::TokenContractId => self.token.admin is Some,
                data_key::Dao::Metadata => self.initialized(),
            },
    {
        match key {
            data_key::Dao::Members => self.members.len() > 0,
            data_key::Dao::TokenContractId => self.token.admin.is_some(),
            data_key::Dao::Metadata => self.config.is_some(),
        }
    }

    /// Whether the store holds an entry under the per-proposal `key`: votes once
    /// one has been cast, the record under the key of its own kind, and the
    /// metadata and status of every stored proposal.
    pub fn has_proposal_key(&self, key: &data_key::Proposal) -> (r: bool)
        requires
            self.wf(),
        ensures
            r == match *key {
                data_key::Proposal::Vote(id) => self.has_proposal(id@) && self.entry(id@).votes@.len()
                    > 0,
                data_key::Proposal::AddMember(id) => self.has_proposal(id@) && self.entry(
                    id@,
                ).record.kind_spec() == Type::AddMember,
                data_key::Proposal::RemoveMember(id) => self.has_proposal(id@) && self.entry(
                    id@,
                ).record.kind_spec() == Type::RemoveMember,
                data_key::Proposal::GrantVotingPower(id) => self.has_proposal(id@) && self.entry(
                    id@,
                ).record.kind_spec() == Type::GrantVotingPower,
                data_key::Proposal::RevokeVotingPower(id) => self.has_proposal(id@) && self.entry(
                    id@,
                ).record.kind_spec() == Type::RevokeVotingPower,
                data_key::Proposal::GeneralPurpose(id) => self.has_proposal(id@) && self.entry(
                    id@,
                ).record.kind_spec() == Type::GeneralPurpose,
                data_key::Proposal::Metadata(id) => self.has_proposal(id@),
                data_key::Proposal::Status(id) => self.has_proposal(id@),
            },
    {
        let (id, kind) = match key {
            data_key::Proposal::Vote(id) => {
                return match self.find_proposal(id) {
                    Some(i) => self.proposals[i].votes.len() > 0,
                    None => false,
                };
            },
            data_key::Proposal::Metadata(id) => return self.find_proposal(id).is_some(),
            data_key::Proposal::Status(id) => return self.find_proposal(id).is_some(),
            data_key::Proposal::AddMember(id) => (id, Type::AddMember),
            data_key::Proposal::RemoveMember(id) => (id, Type::RemoveMember),
            data_key::Proposal::GrantVotingPower(id) => (id, Type::GrantVotingPower),
            data_key::Proposal::RevokeVotingPower(id) => (id, Type::RevokeVotingPower),
            data_key::Proposal::GeneralPurpose(id) => (id, Type::GeneralPurpose),
        };
        match self.find_proposal(id) {
            Some(i) => self.proposals[i].record.kind() == kind,
            None => false,
        }
    }

    /// The members, in the order they joined.
    pub fn get_members(&self) -> (r: Vec<Address>)
        ensures
            r@ == self.members@,
    {
        member::read_members(self)
    }

    /// Whether `member` holds voting power.
    pub fn has_voting_power(&self, member: &Address) -> (r: bool)
        requires
            self.wf(),
        ensures
            r == self.has_power(member@),
    {
        dao_token::has_voting_power(self, member)
    }

    /// The stored status of proposal `proposal_id`.
    pub fn get_proposal_status(&self, proposal_id: &ProposalId) -> (r: Result<Status, DaoError>)
        requires
            self.wf(),
        ensures
            self.has_proposal(proposal_id@) ==> r == Ok::<Status, DaoError>(
                self.entry(proposal_id@).status,
            ),
            !self.has_proposal(proposal_id@) ==> r == Err::<Status, DaoError>(
                DaoError::ProposalNotFound,
            ),
    {
        read_status(self, proposal_id)
    }

    /// Records the vote of `voter`, authenticated by the caller, on proposal
    /// `proposal_id` at time `now`.
    pub fn vote_proposal(&mut self, voter: Address, proposal_id: &ProposalId, now: u64) -> (r:
        Result<(), DaoError>)
        requires
            old(self).wf(),
        ensures
            voted(*old(self), *final(self), voter, proposal_id@, now, r),
    {
        proposal::vote::vote(self, voter, proposal_id, now)
    }

    /// The voters on proposal `proposal_id`, in the order they voted.
    pub fn get_proposal_votes(&self, proposal_id: &ProposalId) -> (r: Vec<Address>)
        requires
            self.wf(),
        ensures
            self.has_proposal(proposal_id@) ==> r@ == self.entry(proposal_id@).votes@,
            !self.has_proposal(proposal_id@) ==> r@.len() == 0,
    {
        proposal::vote::read_votes(self, proposal_id)
    }

    /// Proposes adding `proposal.candidate`. The caller has been authenticated as
    /// the proposer; `proposal_id` is fresh.
    pub fn add_member_proposal(&mut self, proposal: AddMember, proposal_id: ProposalId, now: u64) -> (r: Result<
        ProposalId,
        DaoError,
    >)
        requires
            old(self).wf(),
            !old(self).has_proposal(proposal_id@),
        ensures
            submitted(*old(self), *final(self), Record::AddMember(proposal), proposal_id, now, r),
    {
        proposal::add_member::write(self, proposal, proposal_id, now)
    }

    /// The stored proposal `proposal_id`, which must be of this kind.
    pub fn get_add_member_proposal(&self, proposal_id: &ProposalId) -> (r: Result<AddMember, DaoError>)
        requires
            self.wf(),
        ensures
            match r {
                Ok(p) => self.has_proposal(proposal_id@) && self.entry(proposal_id@).record
                    == Record::AddMember(p),
                Err(e) => e == DaoError::ProposalNotFound && !(self.has_proposal(proposal_id@)
                    && self.entry(proposal_id@).record is AddMember),
            },
    {
        proposal::add_member::read(self, proposal_id)
    }

    /// Evaluates proposal `proposal_id` at time `now` on behalf of member `evaluator`.
    pub fn evaluate_add_member_proposal(&mut self, evaluator: &Address, proposal_id: &ProposalId, now: u64) -> (r:
        Result<(), DaoError>)
        requires
            old(self).wf(),
        ensures
            !old(self).has_member(evaluator@) ==> r == Err::<(), DaoError>(DaoError::NotAMember)
                && *final(self) == *old(self),
            old(self).has_member(evaluator@) ==> evaluated(
                *old(self),
                *final(self),
                proposal_id@,
                Type::AddMember,
                now,
                r,
            ),
    {
        if !member::is_member(self, evaluator) {
            return Err(DaoError::NotAMember);
        }
        proposal::add_member::evaluate(self, proposal_id, now)
    }

    /// Proposes removing `proposal.candidate`. The caller has been authenticated as
    /// the proposer; `proposal_id` is fresh.
    pub fn remove_member_proposal(&mut self, proposal: RemoveMember, proposal_id: ProposalId, now: u64) -> (r: Result<
        ProposalId,
        DaoError,
    >)
        requires
            old(self).wf(),
            !old(self).has_proposal(proposal_id@),
        ensures
            submitted(*old(self), *final(self), Record::RemoveMember(proposal), proposal_id, now, r),
    {
        proposal::remove_member::write(self, proposal, proposal_id, now)
    }

    /// The stored proposal `proposal_id`, which must be of this kind.
    pub fn get_remove_member_proposal(&self, proposal_id: &ProposalId) -> (r: Result<RemoveMember, DaoError>)
        requires
            self.wf(),
        ensures
            match r {
                Ok(p) => self.has_proposal(proposal_id@) && self.entry(proposal_id@).record
                    == Record::RemoveMember(p),
                Err(e) => e == DaoError::ProposalNotFound && !(self.has_proposal(proposal_id@)
                    && self.entry(proposal_id@).record is RemoveMember),
            },
    {
        proposal::remove_member::read(self, proposal_id)
    }

    /// Evaluates proposal `proposal_id` at time `now` on behalf of member `evaluator`.
    pub fn evaluate_remove_member_proposal(&mut self, evaluator: &Address, proposal_id: &ProposalId, now: u64) -> (r:
        Result<(), DaoError>)
        requires
            old(self).wf(),
        ensures
            !old(self).has_member(evaluator@) ==> r == Err::<(), DaoError>(DaoError::NotAMember)
                && *final(self) == *old(self),
            old(self).has_member(evaluator@) ==> evaluated(
                *old(self),
                *final(self),
                proposal_id@,
                Type::RemoveMember,
                now,
                r,
            ),
    {
        if !member::is_member(self, evaluator) {
            return Err(DaoError::NotAMember);
        }
        proposal::remove_member::evaluate(self, proposal_id, now)
    }

    /// Proposes giving `proposal.candidate` one unit of voting power. The caller has been authenticated as
    /// the proposer; `proposal_id` is fresh.
    pub fn grant_voting_proposal(&mut self, proposal: GrantVotingPower, proposal_id: ProposalId, now: u64) -> (r: Result<
        ProposalId,
        DaoError,
    >)
        requires
            old(self).wf(),
            !old(self).has_proposal(proposal_id@),
        ensures
            submitted(*old(self), *final(self), Record::GrantVotingPower(proposal), proposal_id, now, r),
    {
        proposal::grant_voting_power::write(self, proposal, proposal_id, now)
    }

    /// The stored proposal `proposal_id`, which must be of this kind.
    pub fn get_grant_voting_proposal(&self, proposal_id: &ProposalId) -> (r: Result<GrantVotingPower, DaoError>)
        requires
            self.wf(),
        ensures
            match r {
                Ok(p) => self.has_proposal(proposal_id@) && self.entry(proposal_id@).record
                    == Record::GrantVotingPower(p),
                Err(e) => e == DaoError::ProposalNotFound && !(self.has_proposal(proposal_id@)
                    && self.entry(proposal_id@).record is GrantVotingPower),
            },
    {
        proposal::grant_voting_power::read(self, proposal_id)
    }

    /// Evaluates proposal `proposal_id` at time `now` on behalf of member `evaluator`.
    pub fn evaluate_grant_voting_proposal(&mut self, evaluator: &Address, proposal_id: &ProposalId, now: u64) -> (r:
        Result<(), DaoError>)
        requires
            old(self).wf(),
        ensures
            !old(self).has_member(evaluator@) ==> r == Err::<(), DaoError>(DaoError::NotAMember)
                && *final(self) == *old(self),
            old(self).has_member(evaluator@) ==> evaluated(
                *old(self),
                *final(self),
                proposal_id@,
                Type::GrantVotingPower,
                now,
                r,
            ),
    {
        if !member::is_member(self, evaluator) {
            return Err(DaoError::NotAMember);
        }
        proposal::grant_voting_power::evaluate(self, proposal_id, now)
    }

    /// Proposes taking one unit of voting power from `proposal.candidate`. The caller has been authenticated as
    /// the proposer; `proposal_id` is fresh.
    pub fn revoke_voting_proposal(&mut self, proposal: RevokeVotingPower, proposal_id: ProposalId, now: u64) -> (r: Result<
        ProposalId,
        DaoError,
    >)
        requires
            old(self).wf(),
            !old(self).has_proposal(proposal_id@),
        ensures
            submitted(*old(self), *final(self), Record::RevokeVotingPower(proposal), proposal_id, now, r),
    {
        proposal::revoke_voting_power::write(self, proposal, proposal_id, now)
    }

    /// The stored proposal `proposal_id`, which must be of this kind.
    pub fn get_revoke_voting_proposal(&self, proposal_id: &ProposalId) -> (r: Result<RevokeVotingPower, DaoError>)
        requires
            self.wf(),
        ensures
            match r {
                Ok(p) => self.has_proposal(proposal_id@) && self.entry(proposal_id@).record
                    == Record::RevokeVotingPower(p),
                Err(e) => e == DaoError::ProposalNotFound && !(self.has_proposal(proposal_id@)
                    && self.entry(proposal_id@).record is RevokeVotingPower),
            },
    {
        proposal::revoke_voting_power::read(self, proposal_id)
    }

    /// Evaluates proposal `proposal_id` at time `now` on behalf of member `evaluator`.
    pub fn evaluate_revoke_voting_proposal(&mut self, evaluator: &Address, proposal_id: &ProposalId, now: u64) -> (r:
        Result<(), DaoError>)
        requires
            old(self).wf(),
        ensures
            !old(self).has_member(evaluator@) ==> r == Err::<(), DaoError>(DaoError::NotAMember)
                && *final(self) == *old(self),
            old(self).has_member(evaluator@) ==> evaluated(
                *old(self),
                *final(self),
                proposal_id@,
                Type::RevokeVotingPower,
                now,
                r,
            ),
    {
        if !member::is_member(self, evaluator) {
            return Err(DaoError::NotAMember);
        }
        proposal::revoke_voting_power::evaluate(self, proposal_id, now)
    }

    /// Proposes a decision carried out outside the organisation. The caller has been authenticated as
    /// the proposer; `proposal_id` is fresh.
    pub fn general_purpose_proposal(&mut self, proposal: GeneralPurpose, proposal_id: ProposalId, now: u64) -> (r: Result<
        ProposalId,
        DaoError,
    >)
        requires
            old(self).wf(),
            !old(self).has_proposal(proposal_id@),
        ensures
            submitted(*old(self), *final(self), Record::GeneralPurpose(proposal), proposal_id, now, r),
    {
        proposal::general_purpose::write(self, proposal, proposal_id, now)
    }

    /// The stored proposal `proposal_id`, which must be of this kind.
    pub fn get_gneral_purpose_proposal(&self, proposal_id: &ProposalId) -> (r: Result<GeneralPurpose, DaoError>)
        requires
            self.wf(),
        ensures
            match r {
                Ok(p) => self.has_proposal(proposal_id@) && self.entry(proposal_id@).record
                    == Record::GeneralPurpose(p),
                Err(e) => e == DaoError::ProposalNotFound && !(self.has_proposal(proposal_id@)
                    && self.entry(proposal_id@).record is GeneralPurpose),
            },
    {
        proposal::general_purpose::read(self, proposal_id)
    }

    /// Evaluates proposal `proposal_id` at time `now` on behalf of member `evaluator`.
    pub fn evaluate_general_proposal(&mut self, evaluator: &Address, proposal_id: &ProposalId, now: u64) -> (r:
        Result<(), DaoError>)
        requires
            old(self).wf(),
        ensures
            !old(self).has_member(evaluator@) ==> r == Err::<(), DaoError>(DaoError::NotAMember)
                && *final(self) == *old(self),
            old(self).has_member(evaluator@) ==> evaluated(
                *old(self),
                *final(self),
                proposal_id@,
                Type::GeneralPurpose,
                now,
                r,
            ),
    {
        if !member::is_member(self, evaluator) {
            return Err(DaoError::NotAMember);
        }
        proposal::general_purpose::evaluate(self, proposal_id, now)
    }
}

} // verus!

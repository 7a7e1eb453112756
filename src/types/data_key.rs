use vstd::prelude::*;

use crate::address::ProposalId;

verus! {

/// Keys of the organisation-wide entries of the store.
#[derive(Clone, Copy, Debug, PartialEq, Eq)]
pub enum Dao {
    Members,
    TokenContractId,
    Metadata,
}

/// Keys of the per-proposal entries of the store.
#[derive(Clone, Copy, Debug, PartialEq, Eq)]
pub enum Proposal {
    Vote(ProposalId),
    AddMember(ProposalId),
    RemoveMember(ProposalId),
    GrantVotingPower(ProposalId),
    RevokeVotingPower(ProposalId),
    GeneralPurpose(ProposalId),
    Metadata(ProposalId),
    Status(ProposalId),
}

} // verus!

use vstd::prelude::*;

use crate::address::Address;

verus! {

/// The five kinds of proposal.
#[derive(Clone, Copy, Debug, PartialEq, Eq, Structural)]
pub enum Type {
    AddMember,
    RemoveMember,
    GrantVotingPower,
    RevokeVotingPower,
    GeneralPurpose,
}

/// Lifecycle status of a proposal.
#[derive(Clone, Copy, Debug, PartialEq, Eq, Structural)]
pub enum Status {
    Active,
    Ended,
    Accepted,
    Rejected,
    NotStarted,
}

impl Status {
    /// `Accepted` and `Rejected` are final.
    pub open spec fn is_terminal(self) -> bool {
        self is Accepted || self is Rejected
    }
}

/// What every proposal carries: who proposed it and its voting window.
#[derive(Debug, PartialEq, Eq)]
pub struct Metadata {
    pub name: String,
    pub description: String,
    pub proposer: Address,
    pub start_time: u64,
    pub end_time: u64,
}

impl Clone for Metadata {
    fn clone(&self) -> (r: Self)
        ensures
            r == *self,
    {
        Metadata {
            name: self.name.clone(),
            description: self.description.clone(),
            proposer: self.proposer.clone(),
            start_time: self.start_time,
            end_time: self.end_time,
        }
    }
}

/// Add `candidate` to the members.
#[derive(Debug, PartialEq, Eq)]
pub struct AddMember {
    pub metadata: Metadata,
    pub candidate: Address,
}

/// Remove `candidate` from the members.
#[derive(Debug, PartialEq, Eq)]
pub struct RemoveMember {
    pub metadata: Metadata,
    pub candidate: Address,
}

/// Give `candidate` one unit of voting power.
#[derive(Debug, PartialEq, Eq)]
pub struct GrantVotingPower {
    pub metadata: Metadata,
    pub candidate: Address,
}

/// Take one unit of voting power from `candidate`.
#[derive(Debug, PartialEq, Eq)]
pub struct RevokeVotingPower {
    pub metadata: Metadata,
    pub candidate: Address,
}

/// A decision carried out outside the organisation's own state.
#[derive(Debug, PartialEq, Eq)]
pub struct GeneralPurpose {
    pub metadata: Metadata,
    pub actions: String,
}

impl Clone for AddMember {
    fn clone(&self) -> (r: Self)
        ensures
            r == *self,
    {
        AddMember { metadata: self.metadata.clone(), candidate: self.candidate.clone() }
    }
}

impl Clone for RemoveMember {
    fn clone(&self) -> (r: Self)
        ensures
            r == *self,
    {
        RemoveMember { metadata: self.metadata.clone(), candidate: self.candidate.clone() }
    }
}

impl Clone for GrantVotingPower {
    fn clone(&self) -> (r: Self)
        ensures
            r == *self,
    {
        GrantVotingPower { metadata: self.metadata.clone(), candidate: self.candidate.clone() }
    }
}

impl Clone for RevokeVotingPower {
    fn clone(&self) -> (r: Self)
        ensures
            r == *self,
    {
        RevokeVotingPower { metadata: self.metadata.clone(), candidate: self.candidate.clone() }
    }
}

impl Clone for GeneralPurpose {
    fn clone(&self) -> (r: Self)
        ensures
            r == *self,
    {
        GeneralPurpose { metadata: self.metadata.clone(), actions: self.actions.clone() }
    }
}

/// A stored proposal of any kind.
#[derive(Debug, PartialEq, Eq)]
pub enum Record {
    AddMember(AddMember),
    RemoveMember(RemoveMember),
    GrantVotingPower(GrantVotingPower),
    RevokeVotingPower(RevokeVotingPower),
    GeneralPurpose(GeneralPurpose),
}

impl Record {
    pub open spec fn metadata(self) -> Metadata {
        match self {
            Record::AddMember(p) => p.metadata,
            Record::RemoveMember(p) => p.metadata,
            Record::GrantVotingPower(p) => p.metadata,
            Record::RevokeVotingPower(p) => p.metadata,
            Record::GeneralPurpose(p) => p.metadata,
        }
    }

    pub open spec fn kind_spec(self) -> Type {
        match self {
            Record::AddMember(_) => Type::AddMember,
            Record::RemoveMember(_) => Type::RemoveMember,
            Record::GrantVotingPower(_) => Type::GrantVotingPower,
            Record::RevokeVotingPower(_) => Type::RevokeVotingPower,
            Record::GeneralPurpose(_) => Type::GeneralPurpose,
        }
    }

    /// The kind of this proposal.
    pub fn kind(&self) -> (r: Type)
        ensures
            r == self.kind_spec(),
    {
        match self {
            Record::AddMember(_) => Type::AddMember,
            Record::RemoveMember(_) => Type::RemoveMember,
            Record::GrantVotingPower(_) => Type::GrantVotingPower,
            Record::RevokeVotingPower(_) => Type::RevokeVotingPower,
            Record::GeneralPurpose(_) => Type::GeneralPurpose,
        }
    }

    /// The shared metadata of this proposal.
    pub fn get_metadata(&self) -> (r: &Metadata)
        ensures
            *r == self.metadata(),
    {
        match self {
            Record::AddMember(p) => &p.metadata,
            Record::RemoveMember(p) => &p.metadata,
            Record::GrantVotingPower(p) => &p.metadata,
            Record::RevokeVotingPower(p) => &p.metadata,
            Record::GeneralPurpose(p) => &p.metadata,
        }
    }
}

} // verus!

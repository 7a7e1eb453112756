use vstd::prelude::*;

verus! {

/// Why an operation of the organisation was refused.
#[derive(Clone, Copy, Debug, PartialEq, Eq, Structural)]
pub enum DaoError {
    InsufficientInitialMembers,
    AlreadyInitialized,
    NotInitialized,
    DuplicateMember,
    NotAMember,
    UnknownMember,
    AlreadyMember,
    NoVotingPower,
    AlreadyHasPower,
    InsufficientBalance,
    InvalidWindow,
    DurationTooLong,
    DurationTooShort,
    ProposalNotStarted,
    ProposalEnded,
    ProposalNotEnded,
    AlreadyEvaluated,
    AlreadyVoted,
    ProposalNotFound,
}

/// Why an operation of the voting-power ledger was refused.
#[derive(Clone, Copy, Debug, PartialEq, Eq, Structural)]
pub enum TokenError {
    AlreadyInitialized,
    NotInitialized,
    NegativeAmount,
    InsufficientBalance,
}

} // verus!

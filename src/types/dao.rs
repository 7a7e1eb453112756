use vstd::prelude::*;

verus! {

/// Configuration of the organisation, fixed at initialisation.
#[derive(Clone, Copy, Debug, PartialEq, Eq)]
pub struct Metadata {
    pub min_proposal_duration: u64,
    pub max_proposal_duration: u64,
    pub min_quorum_percentage: u32,
}

} // verus!

//! The organisation's stored state and the facts that every operation keeps.
use vstd::prelude::*;

use crate::address::{distinct, holds, Address, ProposalId};
use crate::token::{amounts_within, TokenContract};
use crate::types::dao;
use crate::types::proposal::{Record, Status};

verus! {

/// One stored proposal: its record, its status and who has voted on it.
#[derive(Debug)]
pub struct ProposalEntry {
    pub id: ProposalId,
    pub record: Record,
    pub status: Status,
    pub votes: Vec<Address>,
}

/// Everything the organisation stores.
#[derive(Debug)]
pub struct DaoContract {
    /// The organisation's own address, admin of its voting-power ledger.
    pub address: Address,
    /// The configuration, absent until initialisation.
    pub config: Option<dao::Metadata>,
    pub members: Vec<Address>,
    /// The linked voting-power ledger.
    pub token: TokenContract,
    pub proposals: Vec<ProposalEntry>,
}

/// Identifiers in `s` are pairwise different.
pub open spec fn ids_distinct(s: Seq<ProposalEntry>) -> bool {
    forall|i: int, j: int| 0 <= i < j < s.len() ==> #[trigger] s[i].id@ != #[trigger] s[j].id@
}

/// `new` keeps every proposal of `old` in its place, with the same record, a vote
/// list that only grew, and a final status left as it was.
pub open spec fn history_kept(old: DaoContract, new: DaoContract) -> bool {
    &&& old.proposals@.len() <= new.proposals@.len()
    &&& forall|i: int|
        0 <= i < old.proposals@.len() ==> {
            let a = #[trigger] old.proposals@[i];
            let b = new.proposals@[i];
            &&& b.id == a.id
            &&& b.record == a.record
            &&& a.votes@.len() <= b.votes@.len()
            &&& b.votes@.subrange(0, a.votes@.len() as int) == a.votes@
            &&& a.status.is_terminal() ==> b.status == a.status
        }
}

/// `new` differs from `old` at most in its members.
pub open spec fn only_members_changed(old: DaoContract, new: DaoContract) -> bool {
    &&& new.address == old.address
    &&& new.config == old.config
    &&& new.token == old.token
    &&& new.proposals == old.proposals
}

/// `new` differs from `old` at most in its ledger.
pub open spec fn only_token_changed(old: DaoContract, new: DaoContract) -> bool {
    &&& new.address == old.address
    &&& new.config == old.config
    &&& new.members == old.members
    &&& new.proposals == old.proposals
}

/// `e` with its status replaced by `s`.
pub open spec fn with_status(e: ProposalEntry, s: Status) -> ProposalEntry {
    ProposalEntry { id: e.id, record: e.record, status: s, votes: e.votes }
}

/// `new` may replace proposal `i` of `old` by one with the same identifier and
/// record, a vote list that extends the old one without repetition, and a final
/// status kept; it may change the members and the ledger's balances but not the
/// configuration or the ledger's admin.
pub proof fn lemma_replace_entry(old: DaoContract, new: DaoContract, i: int)
    requires
        old.wf(),
        0 <= i < old.proposals@.len(),
        new.proposals@ == old.proposals@.update(i, new.proposals@[i]),
        new.proposals@[i].id == old.proposals@[i].id,
        new.proposals@[i].record == old.proposals@[i].record,
        distinct(new.proposals@[i].votes@),
        old.proposals@[i].votes@.len() <= new.proposals@[i].votes@.len(),
        new.proposals@[i].votes@.subrange(0, old.proposals@[i].votes@.len() as int)
            == old.proposals@[i].votes@,
        old.proposals@[i].status.is_terminal() ==> new.proposals@[i].status
            == old.proposals@[i].status,
        distinct(new.members@),
        new.token.wf(),
        amounts_within(new.token.balances@, 1),
        new.config == old.config,
        new.token.admin == old.token.admin,
    ensures
        new.wf(),
        history_kept(old, new),
{
    let p = old.proposals@;
    let q = new.proposals@;
    assert forall|x: int, y: int| 0 <= x < y < q.len() implies #[trigger] q[x].id@
        != #[trigger] q[y].id@ by {
        assert(q[x].id == p[x].id && q[y].id == p[y].id);
    }
    assert forall|x: int| 0 <= x < q.len() implies distinct(#[trigger] q[x].votes@) by {
        if x != i {
            assert(q[x] == p[x]);
        }
    }
    assert forall|x: int| 0 <= x < q.len() implies (#[trigger] q[x]).record.metadata().start_time
        < q[x].record.metadata().end_time by {
        assert(q[x].record == p[x].record);
    }
    assert forall|x: int| 0 <= x < p.len() implies {
        let a = #[trigger] p[x];
        let b = q[x];
        &&& b.id == a.id
        &&& b.record == a.record
        &&& a.votes@.len() <= b.votes@.len()
        &&& b.votes@.subrange(0, a.votes@.len() as int) == a.votes@
        &&& a.status.is_terminal() ==> b.status == a.status
    } by {
        if x != i {
            assert(q[x] == p[x]);
            assert(p[x].votes@.subrange(0, p[x].votes@.len() as int) =~= p[x].votes@);
        }
    }
}

/// Any state keeps its own history.
pub proof fn lemma_history_refl(d: DaoContract)
    ensures
        history_kept(d, d),
{
    assert forall|x: int| 0 <= x < d.proposals@.len() implies (#[trigger] d.proposals@[x]).votes@.subrange(
        0,
        d.proposals@[x].votes@.len() as int,
    ) == d.proposals@[x].votes@ by {
        assert(d.proposals@[x].votes@.subrange(0, d.proposals@[x].votes@.len() as int)
            =~= d.proposals@[x].votes@);
    }
}

impl DaoContract {
    /// The organisation's invariant.
    pub open spec fn wf(self) -> bool {
        &&& distinct(self.members@)
        &&& self.token.wf()
        &&& amounts_within(self.token.balances@, 1)
        &&& (self.config is Some <==> self.token.admin is Some)
        &&& (self.proposals@.len() > 0 ==> self.config is Some)
        &&& ids_distinct(self.proposals@)
        &&& forall|i: int| 0 <= i < self.proposals@.len() ==> distinct(#[trigger] self.proposals@[i].votes@)
        &&& forall|i: int|
            0 <= i < self.proposals@.len() ==> (#[trigger] self.proposals@[i]).record.metadata().start_time
                < self.proposals@[i].record.metadata().end_time
    }

    pub open spec fn initialized(self) -> bool {
        self.config is Some
    }

    pub open spec fn has_member(self, a: Seq<char>) -> bool {
        holds(self.members@, a)
    }

    /// A positive balance on the ledger is voting power.
    pub open spec fn has_power(self, a: Seq<char>) -> bool {
        self.token.balance_of(a) > 0
    }

    pub open spec fn has_proposal(self, id: Seq<u8>) -> bool {
        exists|i: int| 0 <= i < self.proposals@.len() && #[trigger] self.proposals@[i].id@ == id
    }

    /// The position of proposal `id`.
    pub open spec fn index_of(self, id: Seq<u8>) -> int {
        choose|i: int| 0 <= i < self.proposals@.len() && #[trigger] self.proposals@[i].id@ == id
    }

    /// The stored proposal `id`.
    pub open spec fn entry(self, id: Seq<u8>) -> ProposalEntry {
        self.proposals@[self.index_of(id)]
    }

    pub open spec fn quorum_percentage(self) -> int {
        match self.config {
            Some(c) => c.min_quorum_percentage as int,
            None => 0,
        }
    }

    pub proof fn lemma_index_of(self, id: Seq<u8>, i: int)
        requires
            self.wf(),
            0 <= i < self.proposals@.len(),
            self.proposals@[i].id@ == id,
        ensures
            self.has_proposal(id),
            self.index_of(id) == i,
    {
        let j = self.index_of(id);
        if j != i {
            if j < i {
                assert(self.proposals@[j].id@ != self.proposals@[i].id@);
            } else {
                assert(self.proposals@[i].id@ != self.proposals@[j].id@);
            }
        }
    }

    /// An organisation with nothing stored yet.
    pub fn new(address: Address) -> (r: DaoContract)
        ensures
            r.wf(),
            r.address == address,
            !r.initialized(),
            r.members@.len() == 0,
            r.proposals@.len() == 0,
            forall|a: Seq<char>| r.token.balance_of(a) == 0,
    {
        DaoContract {
            address,
            config: None,
            members: Vec::new(),
            token: TokenContract::new(),
            proposals: Vec::new(),
        }
    }

    /// The position of proposal `id`, if it is stored.
    pub fn find_proposal(&self, id: &ProposalId) -> (r: Option<usize>)
        requires
            self.wf(),
        ensures
            match r {
                Some(i) => self.has_proposal(id@) && i == self.index_of(id@),
                None => !self.has_proposal(id@),
            },
    {
        let mut i: usize = 0;
        while i < self.proposals.len()
            invariant
                self.wf(),
                i <= self.proposals@.len(),
                forall|j: int| 0 <= j < i ==> #[trigger] self.proposals@[j].id@ != id@,
            decreases self.proposals@.len() - i,
        {
            if self.proposals[i].id.same(id) {
                proof {
                    self.lemma_index_of(id@, i as int);
                }
                return Some(i);
            }
            i = i + 1;
        }
        None
    }
}

} // verus!

use vstd::prelude::*;

verus! {

/// An opaque identity: the textual form of an account or contract address.
#[derive(Debug, PartialEq, Eq)]
pub struct Address {
    pub id: String,
}

impl View for Address {
    type V = Seq<char>;

    open spec fn view(&self) -> Seq<char> {
        self.id@
    }
}

impl Clone for Address {
    fn clone(&self) -> (r: Self)
        ensures
            r == *self,
    {
        Address { id: self.id.clone() }
    }
}

impl Address {
    pub fn new(id: String) -> (r: Address)
        ensures
            r@ == id@,
    {
        Address { id }
    }

    /// Whether two addresses name the same identity.
    pub fn same(&self, other: &Address) -> (r: bool)
        ensures
            r == (self@ == other@),
    {
        self.id == other.id
    }
}

/// The views of a sequence of addresses.
pub open spec fn ids(s: Seq<Address>) -> Seq<Seq<char>> {
    s.map_values(|a: Address| a@)
}

/// Whether `a` occurs in `s`.
pub open spec fn holds(s: Seq<Address>, a: Seq<char>) -> bool {
    exists|i: int| 0 <= i < s.len() && #[trigger] s[i]@ == a
}

/// No identity occurs twice in `s`.
pub open spec fn distinct(s: Seq<Address>) -> bool {
    forall|i: int, j: int| 0 <= i < j < s.len() ==> #[trigger] s[i]@ != #[trigger] s[j]@
}

/// Finds the first position of `a` in `s`.
pub fn position(s: &Vec<Address>, a: &Address) -> (r: Option<usize>)
    ensures
        match r {
            Some(i) => i < s@.len() && s@[i as int]@ == a@ && forall|j: int|
                0 <= j < i ==> #[trigger] s@[j]@ != a@,
            None => !holds(s@, a@),
        },
{
    let mut i: usize = 0;
    while i < s.len()
        invariant
            i <= s@.len(),
            forall|j: int| 0 <= j < i ==> #[trigger] s@[j]@ != a@,
        decreases s@.len() - i,
    {
        if s[i].same(a) {
            return Some(i);
        }
        i = i + 1;
    }
    None
}

/// Whether `a` occurs in `s`.
pub fn contains(s: &Vec<Address>, a: &Address) -> (r: bool)
    ensures
        r == holds(s@, a@),
{
    position(s, a).is_some()
}

/// A 32-byte proposal identifier.
#[derive(Clone, Copy, Debug, PartialEq, Eq)]
pub struct ProposalId {
    pub bytes: [u8; 32],
}

impl View for ProposalId {
    type V = Seq<u8>;

    open spec fn view(&self) -> Seq<u8> {
        self.bytes@
    }
}

impl ProposalId {
    pub fn new(bytes: [u8; 32]) -> (r: ProposalId)
        ensures
            r@ == bytes@,
    {
        ProposalId { bytes }
    }

    /// Whether two identifiers are equal byte for byte.
    pub fn same(&self, other: &ProposalId) -> (r: bool)
        ensures
            r == (self@ == other@),
    {
        let mut i: usize = 0;
        while i < 32
            invariant
                i <= 32,
                self@.len() == 32,
                other@.len() == 32,
                forall|j: int| 0 <= j < i ==> self@[j] == other@[j],
            decreases 32 - i,
        {
            if self.bytes[i] != other.bytes[i] {
                return false;
            }
            i = i + 1;
        }
        assert(self@ =~= other@);
        true
    }
}

} // verus!

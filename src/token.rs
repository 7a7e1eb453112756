//! The voting-power ledger: a token whose balances only its admin moves.
use vstd::prelude::*;

use crate::address::Address;
use crate::error::TokenError;

verus! {

/// Name and symbol of the token.
#[derive(Debug, PartialEq, Eq)]
pub struct Metadata {
    pub name: String,
    pub symbol: String,
}

/// The stored balance of one account.
#[derive(Debug, PartialEq, Eq)]
pub struct Balance {
    pub account: Address,
    pub amount: i128,
}

/// The ledger's storage: its admin, its metadata and one balance per account.
#[derive(Debug)]
pub struct TokenContract {
    pub admin: Option<Address>,
    pub metadata: Option<Metadata>,
    pub balances: Vec<Balance>,
}

/// The balance of `a` in `s`: the amount of its entry, or 0 when it has none.
pub open spec fn balance_in(s: Seq<Balance>, a: Seq<char>) -> int
    decreases s.len(),
{
    if s.len() == 0 {
        0
    } else if s.last().account@ == a {
        s.last().amount as int
    } else {
        balance_in(s.drop_last(), a)
    }
}

/// No account has two entries in `s`.
pub open spec fn accounts_distinct(s: Seq<Balance>) -> bool {
    forall|i: int, j: int|
        0 <= i < j < s.len() ==> #[trigger] s[i].account@ != #[trigger] s[j].account@
}

/// Every amount in `s` lies in `0..=hi`.
pub open spec fn amounts_within(s: Seq<Balance>, hi: int) -> bool {
    forall|i: int| 0 <= i < s.len() ==> 0 <= #[trigger] s[i].amount <= hi
}

proof fn lemma_balance_push(s: Seq<Balance>, b: Balance, a: Seq<char>)
    ensures
        balance_in(s.push(b), a) == if a == b.account@ {
            b.amount as int
        } else {
            balance_in(s, a)
        },
{
    assert(s.push(b).drop_last() =~= s);
}

proof fn lemma_balance_at(s: Seq<Balance>, i: int)
    requires
        0 <= i < s.len(),
        accounts_distinct(s),
    ensures
        balance_in(s, s[i].account@) == s[i].amount,
    decreases s.len(),
{
    if i < s.len() - 1 {
        assert(s.drop_last()[i] == s[i]);
        lemma_balance_at(s.drop_last(), i);
    }
}

proof fn lemma_balance_absent(s: Seq<Balance>, a: Seq<char>)
    requires
        forall|i: int| 0 <= i < s.len() ==> #[trigger] s[i].account@ != a,
    ensures
        balance_in(s, a) == 0,
    decreases s.len(),
{
    if s.len() > 0 {
        assert(s.last() == s[s.len() - 1]);
        lemma_balance_absent(s.drop_last(), a);
    }
}

proof fn lemma_balance_update(s: Seq<Balance>, i: int, b: Balance, a: Seq<char>)
    requires
        0 <= i < s.len(),
        accounts_distinct(s),
        s[i].account@ == b.account@,
    ensures
        balance_in(s.update(i, b), a) == if a == b.account@ {
            b.amount as int
        } else {
            balance_in(s, a)
        },
    decreases s.len(),
{
    let t = s.update(i, b);
    if i == s.len() - 1 {
        assert(t.drop_last() =~= s.drop_last());
    } else {
        assert(t.drop_last() =~= s.drop_last().update(i, b));
        lemma_balance_update(s.drop_last(), i, b, a);
    }
}

proof fn lemma_balance_bounds(s: Seq<Balance>, a: Seq<char>, hi: int)
    requires
        amounts_within(s, hi),
        0 <= hi,
    ensures
        0 <= balance_in(s, a) <= hi,
    decreases s.len(),
{
    if s.len() > 0 {
        assert(s.last() == s[s.len() - 1]);
        lemma_balance_bounds(s.drop_last(), a, hi);
    }
}

impl TokenContract {
    /// Balances are kept once per account and never negative.
    pub open spec fn wf(self) -> bool {
        &&& accounts_distinct(self.balances@)
        &&& forall|i: int| 0 <= i < self.balances@.len() ==> 0 <= #[trigger] self.balances@[i].amount
    }

    pub open spec fn balance_of(self, a: Seq<char>) -> int {
        balance_in(self.balances@, a)
    }

    pub proof fn lemma_balance_nonnegative(self, a: Seq<char>)
        requires
            self.wf(),
        ensures
            self.balance_of(a) >= 0,
    {
        let s = self.balances@;
        assert(amounts_within(s, i128::MAX as int));
        lemma_balance_bounds(s, a, i128::MAX as int);
    }

    /// Every balance is at most `hi` when every entry is.
    pub proof fn lemma_balance_at_most(self, a: Seq<char>, hi: int)
        requires
            self.wf(),
            amounts_within(self.balances@, hi),
            0 <= hi,
        ensures
            self.balance_of(a) <= hi,
    {
        lemma_balance_bounds(self.balances@, a, hi);
    }

    /// A ledger that holds nothing yet.
    pub fn new() -> (r: TokenContract)
        ensures
            r.wf(),
            r.admin is None,
            r.metadata is None,
            r.balances@.len() == 0,
            forall|a: Seq<char>| r.balance_of(a) == 0,
    {
        TokenContract { admin: None, metadata: None, balances: Vec::new() }
    }

    /// Sets up the ledger with its admin and metadata; only the first call succeeds.
    pub fn initialize(&mut self, admin: Address, name: String, symbol: String) -> (r: Result<
        (),
        TokenError,
    >)
        requires
            old(self).wf(),
        ensures
            final(self).wf(),
            old(self).admin is Some ==> r == Err::<(), TokenError>(TokenError::AlreadyInitialized)
                && *final(self) == *old(self),
            old(self).admin is None ==> r is Ok && final(self).admin == Some(admin)
                && final(self).metadata == Some(Metadata { name, symbol })
                && final(self).balances == old(self).balances,
    {
        if has_admin(self) {
            return Err(TokenError::AlreadyInitialized);
        }
        write_metadata(self, Metadata { name, symbol });
        write_admin(self, admin);
        Ok(())
    }

    /// The token's name.
    pub fn name(&self) -> (r: Result<String, TokenError>)
        ensures
            match self.metadata {
                Some(m) => r == Ok::<String, TokenError>(m.name),
                None => r == Err::<String, TokenError>(TokenError::NotInitialized),
            },
    {
        read_name(self)
    }

    /// The token's symbol.
    pub fn symbol(&self) -> (r: Result<String, TokenError>)
        ensures
            match self.metadata {
                Some(m) => r == Ok::<String, TokenError>(m.symbol),
                None => r == Err::<String, TokenError>(TokenError::NotInitialized),
            },
    {
        read_symbol(self)
    }

    /// The balance of `id`, 0 for an account never credited.
    pub fn balance(&self, id: &Address) -> (r: Result<i128, TokenError>)
        requires
            self.wf(),
        ensures
            self.admin is None ==> r == Err::<i128, TokenError>(TokenError::NotInitialized),
            self.admin is Some ==> r is Ok && r->Ok_0 == self.balance_of(id@),
    {
        if !has_admin(self) {
            return Err(TokenError::NotInitialized);
        }
        Ok(read_balance(self, id))
    }

    /// Sets the balance of `to` to `amount`.
    pub fn mint(&mut self, to: Address, amount: i128) -> (r: Result<(), TokenError>)
        requires
            old(self).wf(),
        ensures
            final(self).wf(),
            amount < 0 ==> r == Err::<(), TokenError>(TokenError::NegativeAmount),
            amount >= 0 && old(self).admin is None ==> r == Err::<(), TokenError>(
                TokenError::NotInitialized,
            ),
            r is Err ==> *final(self) == *old(self),
            r is Ok <==> amount >= 0 && old(self).admin is Some,
            r is Ok ==> final(self).admin == old(self).admin && final(self).metadata == old(
                self,
            ).metadata,
            r is Ok ==> forall|a: Seq<char>| #[trigger]
                final(self).balance_of(a) == if a == to@ {
                    amount as int
                } else {
                    old(self).balance_of(a)
                },
            r is Ok ==> forall|hi: int|
                amounts_within(old(self).balances@, hi) && amount <= hi ==> #[trigger] amounts_within(
                    final(self).balances@,
                    hi,
                ),
    {
        if check_non_negative(amount).is_err() {
            return Err(TokenError::NegativeAmount);
        }
        if !has_admin(self) {
            return Err(TokenError::NotInitialized);
        }
        write_balance(self, to, amount);
        Ok(())
    }

    /// Takes `amount` from the balance of `from`.
    pub fn burn(&mut self, from: &Address, amount: i128) -> (r: Result<(), TokenError>)
        requires
            old(self).wf(),
        ensures
            final(self).wf(),
            old(self).admin is None ==> r == Err::<(), TokenError>(TokenError::NotInitialized),
            old(self).admin is Some && amount < 0 ==> r == Err::<(), TokenError>(
                TokenError::NegativeAmount,
            ),
            old(self).admin is Some && amount >= 0 && old(self).balance_of(from@) < amount ==> r
                == Err::<(), TokenError>(TokenError::InsufficientBalance),
            r is Err ==> *final(self) == *old(self),
            r is Ok <==> old(self).admin is Some && 0 <= amount <= old(self).balance_of(from@),
            r is Ok ==> final(self).admin == old(self).admin && final(self).metadata == old(
                self,
            ).metadata,
            r is Ok ==> forall|a: Seq<char>| #[trigger]
                final(self).balance_of(a) == if a == from@ {
                    old(self).balance_of(a) - amount
                } else {
                    old(self).balance_of(a)
                },
            r is Ok ==> forall|hi: int|
                0 <= hi && #[trigger] amounts_within(old(self).balances@, hi) ==> amounts_within(
                    final(self).balances@,
                    hi,
                ),
    {
        if !has_admin(self) {
            return Err(TokenError::NotInitialized);
        }
        if check_non_negative(amount).is_err() {
            return Err(TokenError::NegativeAmount);
        }
        burn_balance(self, from, amount)
    }
}

/// Whether the ledger has been given an admin.
pub fn has_admin(token: &TokenContract) -> (r: bool)
    ensures
        r == token.admin is Some,
{
    token.admin.is_some()
}

/// The ledger's admin.
pub fn read_admin(token: &TokenContract) -> (r: Result<Address, TokenError>)
    ensures
        match token.admin {
            Some(a) => r == Ok::<Address, TokenError>(a),
            None => r == Err::<Address, TokenError>(TokenError::NotInitialized),
        },
{
    match &token.admin {
        Some(a) => Ok(a.clone()),
        None => Err(TokenError::NotInitialized),
    }
}

/// Records `admin` as the ledger's admin.
pub fn write_admin(token: &mut TokenContract, admin: Address)
    ensures
        final(token).admin == Some(admin),
        final(token).metadata == old(token).metadata,
        final(token).balances == old(token).balances,
{
    token.admin = Some(admin);
}

/// Stores the token's name and symbol.
pub fn write_metadata(token: &mut TokenContract, metadata: Metadata)
    ensures
        final(token).metadata == Some(metadata),
        final(token).admin == old(token).admin,
        final(token).balances == old(token).balances,
{
    token.metadata = Some(metadata);
}

/// The token's name.
pub fn read_name(token: &TokenContract) -> (r: Result<String, TokenError>)
    ensures
        match token.metadata {
            Some(m) => r == Ok::<String, TokenError>(m.name),
            None => r == Err::<String, TokenError>(TokenError::NotInitialized),
        },
{
    match &token.metadata {
        Some(m) => Ok(m.name.clone()),
        None => Err(TokenError::NotInitialized),
    }
}

/// The token's symbol.
pub fn read_symbol(token: &TokenContract) -> (r: Result<String, TokenError>)
    ensures
        match token.metadata {
            Some(m) => r == Ok::<String, TokenError>(m.symbol),
            None => r == Err::<String, TokenError>(TokenError::NotInitialized),
        },
{
    match &token.metadata {
        Some(m) => Ok(m.symbol.clone()),
        None => Err(TokenError::NotInitialized),
    }
}

/// The position of the entry of `a`, if it has one.
fn find_balance(s: &Vec<Balance>, a: &Address) -> (r: Option<usize>)
    ensures
        match r {
            Some(i) => i < s@.len() && s@[i as int].account@ == a@,
            None => forall|i: int| 0 <= i < s@.len() ==> #[trigger] s@[i].account@ != a@,
        },
{
    let mut i: usize = 0;
    while i < s.len()
        invariant
            i <= s@.len(),
            forall|j: int| 0 <= j < i ==> #[trigger] s@[j].account@ != a@,
        decreases s@.len() - i,
    {
        if s[i].account.same(a) {
            return Some(i);
        }
        i = i + 1;
    }
    None
}

/// The balance of `from`.
pub fn read_balance(token: &TokenContract, from: &Address) -> (r: i128)
    requires
        token.wf(),
    ensures
        r == token.balance_of(from@),
{
    match find_balance(&token.balances, from) {
        Some(i) => {
            proof {
                lemma_balance_at(token.balances@, i as int);
            }
            token.balances[i].amount
        },
        None => {
            proof {
                lemma_balance_absent(token.balances@, from@);
            }
            0
        },
    }
}

/// Sets the balance of `to` to `amount`.
pub fn write_balance(token: &mut TokenContract, to: Address, amount: i128)
    requires
        old(token).wf(),
        amount >= 0,
    ensures
        final(token).wf(),
        final(token).admin == old(token).admin,
        final(token).metadata == old(token).metadata,
        forall|a: Seq<char>| #[trigger]
            final(token).balance_of(a) == if a == to@ {
                amount as int
            } else {
                old(token).balance_of(a)
            },
        forall|hi: int|
            amounts_within(old(token).balances@, hi) && amount <= hi ==> #[trigger] amounts_within(
                final(token).balances@,
                hi,
            ),
{
    let ghost s = token.balances@;
    let ghost key = to@;
    let entry = Balance { account: to, amount };
    match find_balance(&token.balances, &entry.account) {
        Some(i) => {
            token.balances.set(i, entry);
            proof {
                let t = s.update(i as int, entry);
                assert forall|x: int, y: int| 0 <= x < y < t.len() implies #[trigger] t[x].account@
                    != #[trigger] t[y].account@ by {
                    assert(t[x].account@ == s[x].account@ && t[y].account@ == s[y].account@);
                }
                assert forall|x: int| 0 <= x < t.len() implies 0 <= #[trigger] t[x].amount by {
                    if x != i {
                        assert(t[x] == s[x]);
                    }
                }
                assert forall|a: Seq<char>| #[trigger]
                    balance_in(s.update(i as int, entry), a) == if a == key {
                        amount as int
                    } else {
                        balance_in(s, a)
                    } by {
                    lemma_balance_update(s, i as int, entry, a);
                }
                assert forall|hi: int|
                    amounts_within(s, hi) && amount <= hi implies #[trigger] amounts_within(
                    s.update(i as int, entry),
                    hi,
                ) by {
                    assert forall|j: int| 0 <= j < s.len() implies 0 <= #[trigger] s.update(
                        i as int,
                        entry,
                    )[j].amount <= hi by {
                        if j != i {
                            assert(s[j] == s.update(i as int, entry)[j]);
                        }
                    }
                }
            }
        },
        None => {
            token.balances.push(entry);
            proof {
                let t = s.push(entry);
                assert forall|x: int, y: int| 0 <= x < y < t.len() implies #[trigger] t[x].account@
                    != #[trigger] t[y].account@ by {
                    assert(t[x] == s[x]);
                    if y < s.len() {
                        assert(t[y] == s[y]);
                        assert(s[x].account@ != s[y].account@);
                    } else {
                        assert(t[y] == entry);
                        assert(s[x].account@ != entry.account@);
                    }
                }
                assert forall|x: int| 0 <= x < t.len() implies 0 <= #[trigger] t[x].amount by {
                    if x < s.len() {
                        assert(t[x] == s[x]);
                    }
                }
                assert forall|a: Seq<char>| #[trigger]
                    balance_in(s.push(entry), a) == if a == key {
                        amount as int
                    } else {
                        balance_in(s, a)
                    } by {
                    lemma_balance_push(s, entry, a);
                }
                assert forall|hi: int|
                    amounts_within(s, hi) && amount <= hi implies #[trigger] amounts_within(
                    s.push(entry),
                    hi,
                ) by {
                    assert forall|j: int| 0 <= j < s.push(entry).len() implies 0
                        <= #[trigger] s.push(entry)[j].amount <= hi by {
                        if j < s.len() {
                            assert(s[j] == s.push(entry)[j]);
                        }
                    }
                }
            }
        },
    }
}

/// Takes `amount` from the balance of `from`, refusing to go below zero.
pub fn burn_balance(token: &mut TokenContract, from: &Address, amount: i128) -> (r: Result<
    (),
    TokenError,
>)
    requires
        old(token).wf(),
        amount >= 0,
    ensures
        final(token).wf(),
        old(token).balance_of(from@) < amount <==> r == Err::<(), TokenError>(
            TokenError::InsufficientBalance,
        ),
        r is Ok <==> amount <= old(token).balance_of(from@),
        r is Err ==> *final(token) == *old(token),
        r is Ok ==> final(token).admin == old(token).admin && final(token).metadata == old(
            token,
        ).metadata,
        r is Ok ==> forall|a: Seq<char>| #[trigger]
            final(token).balance_of(a) == if a == from@ {
                old(token).balance_of(a) - amount
            } else {
                old(token).balance_of(a)
            },
        r is Ok ==> forall|hi: int|
            0 <= hi && #[trigger] amounts_within(old(token).balances@, hi) ==> amounts_within(
                final(token).balances@,
                hi,
            ),
{
    let current = read_balance(token, from);
    proof {
        token.lemma_balance_nonnegative(from@);
    }
    let balance = current - amount;
    if balance < 0 {
        return Err(TokenError::InsufficientBalance);
    }
    proof {
        assert forall|hi: int| 0 <= hi && #[trigger] amounts_within(token.balances@, hi) implies balance
            <= hi by {
            lemma_balance_bounds(token.balances@, from@, hi);
        }
    }
    write_balance(token, from.clone(), balance);
    Ok(())
}

/// Refuses a negative amount.
pub fn check_non_negative(amount: i128) -> (r: Result<(), TokenError>)
    ensures
        amount < 0 <==> r == Err::<(), TokenError>(TokenError::NegativeAmount),
        r is Ok <==> amount >= 0,
{
    if amount < 0 {
        return Err(TokenError::NegativeAmount);
    }
    Ok(())
}

} // verus!

//! The organisation's side of its voting-power ledger.
use vstd::prelude::*;

use crate::address::Address;
use crate::error::TokenError;
use crate::state::{only_token_changed, DaoContract};
use crate::token::{amounts_within, read_balance};

verus! {

/// Sets the ledger balance of `to` to `amount`.
pub(crate) fn mint(dao: &mut DaoContract, to: Address, amount: i128) -> (r: Result<(), TokenError>)
    requires
        old(dao).wf(),
        0 <= amount <= 1,
    ensures
        final(dao).wf(),
        only_token_changed(*old(dao), *final(dao)),
        r is Err <==> !old(dao).initialized(),
        r is Err ==> *final(dao) == *old(dao),
        final(dao).token.admin == old(dao).token.admin,
        r is Ok ==> forall|a: Seq<char>| #[trigger]
            final(dao).token.balance_of(a) == if a == to@ {
                amount as int
            } else {
                old(dao).token.balance_of(a)
            },
{
    let r = dao.token.mint(to, amount);
    proof {
        if r is Ok {
            assert(amounts_within(dao.token.balances@, 1));
        }
    }
    r
}

/// Takes `amount` from the ledger balance of `from`.
pub(crate) fn burn(dao: &mut DaoContract, from: &Address, amount: i128) -> (r: Result<
    (),
    TokenError,
>)
    requires
        old(dao).wf(),
        0 <= amount,
    ensures
        final(dao).wf(),
        only_token_changed(*old(dao), *final(dao)),
        r is Err <==> !old(dao).initialized() || old(dao).token.balance_of(from@) < amount,
        r is Err ==> *final(dao) == *old(dao),
        final(dao).token.admin == old(dao).token.admin,
        r is Ok ==> forall|a: Seq<char>| #[trigger]
            final(dao).token.balance_of(a) == if a == from@ {
                old(dao).token.balance_of(a) - amount
            } else {
                old(dao).token.balance_of(a)
            },
{
    let r = dao.token.burn(from, amount);
    proof {
        if r is Ok {
            assert(amounts_within(dao.token.balances@, 1));
        }
    }
    r
}

/// The ledger balance of `account`.
pub(crate) fn balance(dao: &DaoContract, account: &Address) -> (r: i128)
    requires
        dao.wf(),
    ensures
        r == dao.token.balance_of(account@),
{
    read_balance(&dao.token, account)
}

/// Whether `member` holds voting power: a positive ledger balance.
pub fn has_voting_power(dao: &DaoContract, member: &Address) -> (r: bool)
    requires
        dao.wf(),
    ensures
        r == dao.has_power(member@),
{
    balance(dao, member) > 0
}

} // verus!

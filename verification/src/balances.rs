//! The table of balances, and the one operation that moves value between
//! two accounts.

use vstd::prelude::*;
use std::collections::BTreeMap;
use crate::arith::{checked_add, checked_sub};
use crate::holdings::{amount_held, lemma_total_insert, total_held};
use crate::types::{AccountId, Balance, Error, Event, TokenId};

verus! {

/// How a transfer of `value` from `from` to `to` ends on a given table.
///
/// The sender needs an entry, and a balance greater than the value: a
/// transfer never empties an account. The receiver's balance must stay
/// within [`Balance`]. A transfer to oneself credits what was debited, so
/// it cannot overflow.
pub open spec fn transfer_outcome(
    table: Map<(TokenId, AccountId), Balance>,
    token_id: TokenId,
    from: AccountId,
    to: AccountId,
    value: Balance,
) -> Result<Event, Error> {
    if !table.contains_key((token_id, from)) {
        Err(Error::NotAnOwner)
    } else if table[(token_id, from)] <= value {
        Err(Error::InsufficientBalance)
    } else if from != to && amount_held(table, token_id, to) + value > Balance::MAX {
        Err(Error::TransferOverflow)
    } else {
        Ok(Event::Transfer { token_id, from, to, value })
    }
}

/// The table after a transfer: debited and credited where the transfer
/// succeeds, untouched where it fails. A transfer to oneself leaves the
/// table as it was.
pub open spec fn after_transfer(
    table: Map<(TokenId, AccountId), Balance>,
    token_id: TokenId,
    from: AccountId,
    to: AccountId,
    value: Balance,
) -> Map<(TokenId, AccountId), Balance> {
    if transfer_outcome(table, token_id, from, to, value).is_ok() && from != to {
        table.insert((token_id, from), (table[(token_id, from)] - value) as Balance).insert(
            (token_id, to),
            (amount_held(table, token_id, to) + value) as Balance,
        )
    } else {
        table
    }
}

/// A transfer, whether it succeeds or fails, leaves the total of every
/// token as it was.
pub proof fn lemma_transfer_conserves(
    table: Map<(TokenId, AccountId), Balance>,
    token_id: TokenId,
    from: AccountId,
    to: AccountId,
    value: Balance,
    any_token: TokenId,
)
    ensures
        total_held(after_transfer(table, token_id, from, to, value), any_token) == total_held(
            table,
            any_token,
        ),
{
    if transfer_outcome(table, token_id, from, to, value).is_ok() && from != to {
        let rest = (table[(token_id, from)] - value) as Balance;
        let debited = table.insert((token_id, from), rest);
        let sum = (amount_held(table, token_id, to) + value) as Balance;
        lemma_total_insert(table, any_token, token_id, from, rest);
        lemma_total_insert(debited, any_token, token_id, to, sum);
    }
}

/// Balances by token and account. An account without an entry holds
/// nothing, but only an account with an entry counts as a holder.
pub struct BalanceTable {
    entries: BTreeMap<(TokenId, AccountId), Balance>,
}

impl View for BalanceTable {
    type V = Map<(TokenId, AccountId), Balance>;

    closed spec fn view(&self) -> Map<(TokenId, AccountId), Balance> {
        self.entries@
    }
}

impl BalanceTable {
    /// A table without entries.
    pub fn new() -> (table: Self)
        ensures
            table@ == Map::<(TokenId, AccountId), Balance>::empty(),
    {
        BalanceTable { entries: BTreeMap::new() }
    }

    /// Whether the account has an entry for the token, be its amount zero
    /// or not.
    pub fn has_entry(&self, token_id: TokenId, who: AccountId) -> (found: bool)
        ensures
            found == self@.contains_key((token_id, who)),
    {
        self.entries.contains_key(&(token_id, who))
    }

    /// What the account holds of the token; zero where it has no entry.
    pub fn get(&self, token_id: TokenId, who: AccountId) -> (amount: Balance)
        ensures
            amount == amount_held(self@, token_id, who),
    {
        match self.entries.get(&(token_id, who)) {
            Some(amount) => *amount,
            None => 0,
        }
    }

    /// Writes the account's entry for the token, whether it had one or not.
    pub fn insert(&mut self, token_id: TokenId, who: AccountId, amount: Balance)
        ensures
            final(self)@ == old(self)@.insert((token_id, who), amount),
    {
        self.entries.insert((token_id, who), amount);
    }

    /// Moves `value` of the token from `from` to `to`.
    ///
    /// The debit and the credit are both computed with overflow detection
    /// before either is written, so a transfer that fails changes nothing.
    pub fn transfer(&mut self, token_id: TokenId, from: AccountId, to: AccountId, value: Balance) -> (outcome: Result<Event, Error>)
        ensures
            outcome == transfer_outcome(old(self)@, token_id, from, to, value),
            final(self)@ == after_transfer(old(self)@, token_id, from, to, value),
            outcome.is_err() ==> final(self)@ == old(self)@,
            forall|any_token: TokenId|
                total_held(final(self)@, any_token) == total_held(old(self)@, any_token),
    {
        if !self.has_entry(token_id, from) {
            return Err(Error::NotAnOwner);
        }
        let sender_balance = self.get(token_id, from);
        if !(sender_balance > value) {
            return Err(Error::InsufficientBalance);
        }
        let debited = checked_sub(sender_balance, value);
        let credited = match debited {
            Some(rest) => {
                let receiver_balance = if to == from {
                    rest
                } else {
                    self.get(token_id, to)
                };
                checked_add(receiver_balance, value)
            },
            None => None,
        };
        proof {
            assert forall|any_token: TokenId|
                total_held(
                    after_transfer(old(self)@, token_id, from, to, value),
                    any_token,
                ) == total_held(old(self)@, any_token) by {
                lemma_transfer_conserves(old(self)@, token_id, from, to, value, any_token);
            }
        }
        match (debited, credited) {
            (Some(rest), Some(sum)) => {
                self.entries.insert((token_id, from), rest);
                self.entries.insert((token_id, to), sum);
                assert(self@ =~= after_transfer(old(self)@, token_id, from, to, value));
                Ok(Event::Transfer { token_id, from, to, value })
            },
            _ => Err(Error::TransferOverflow),
        }
    }
}

} // verus!

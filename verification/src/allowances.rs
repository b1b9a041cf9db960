//! The table of allowances: what a spender may still move out of an
//! owner's balance.

use vstd::prelude::*;
use std::collections::BTreeMap;
use crate::arith::{checked_add, checked_sub};
use crate::types::{AccountId, Balance, TokenId};

verus! {

/// What `spender` may still move out of `owner`'s balance of the token:
/// the entry's amount, or zero where the table has no entry.
pub open spec fn amount_allowed(
    table: Map<(TokenId, AccountId, AccountId), Balance>,
    token_id: TokenId,
    owner: AccountId,
    spender: AccountId,
) -> Balance {
    if table.contains_key((token_id, owner, spender)) {
        table[(token_id, owner, spender)]
    } else {
        0
    }
}

/// The table after the allowance was asked to grow by `value`: the entry
/// holds the sum where the sum fits [`Balance`], and what it held before
/// where it does not.
pub open spec fn after_increase(
    table: Map<(TokenId, AccountId, AccountId), Balance>,
    token_id: TokenId,
    owner: AccountId,
    spender: AccountId,
    value: Balance,
) -> Map<(TokenId, AccountId, AccountId), Balance> {
    let before = amount_allowed(table, token_id, owner, spender);
    if before + value <= Balance::MAX {
        table.insert((token_id, owner, spender), (before + value) as Balance)
    } else {
        table.insert((token_id, owner, spender), before)
    }
}

/// The table after the allowance was asked to shrink by `value`: the
/// entry holds the difference where the allowance covers the value, and
/// what it held before where it does not.
pub open spec fn after_decrease(
    table: Map<(TokenId, AccountId, AccountId), Balance>,
    token_id: TokenId,
    owner: AccountId,
    spender: AccountId,
    value: Balance,
) -> Map<(TokenId, AccountId, AccountId), Balance> {
    let before = amount_allowed(table, token_id, owner, spender);
    if before >= value {
        table.insert((token_id, owner, spender), (before - value) as Balance)
    } else {
        table.insert((token_id, owner, spender), before)
    }
}

/// Allowances by token, owner and spender. A pair without an entry has an
/// allowance of zero, but spending needs an entry.
pub struct AllowanceTable {
    entries: BTreeMap<(TokenId, AccountId, AccountId), Balance>,
}

impl View for AllowanceTable {
    type V = Map<(TokenId, AccountId, AccountId), Balance>;

    closed spec fn view(&self) -> Map<(TokenId, AccountId, AccountId), Balance> {
        self.entries@
    }
}

impl AllowanceTable {
    /// A table without entries.
    pub fn new() -> (table: Self)
        ensures
            table@ == Map::<(TokenId, AccountId, AccountId), Balance>::empty(),
    {
        AllowanceTable { entries: BTreeMap::new() }
    }

    /// Whether an entry exists for the token, owner and spender.
    pub fn has_entry(&self, token_id: TokenId, owner: AccountId, spender: AccountId) -> (found: bool)
        ensures
            found == self@.contains_key((token_id, owner, spender)),
    {
        self.entries.contains_key(&(token_id, owner, spender))
    }

    /// The allowance of the spender; zero where there is no entry.
    pub fn get(&self, token_id: TokenId, owner: AccountId, spender: AccountId) -> (amount: Balance)
        ensures
            amount == amount_allowed(self@, token_id, owner, spender),
    {
        match self.entries.get(&(token_id, owner, spender)) {
            Some(amount) => *amount,
            None => 0,
        }
    }

    /// Raises the allowance by `value`. Where the sum would overflow, the
    /// allowance stays as it is. Either way the entry exists afterwards.
    pub fn increase(&mut self, token_id: TokenId, owner: AccountId, spender: AccountId, value: Balance)
        ensures
            final(self)@ == after_increase(old(self)@, token_id, owner, spender, value),
    {
        let before = self.get(token_id, owner, spender);
        let after = match checked_add(before, value) {
            Some(sum) => sum,
            None => before,
        };
        self.entries.insert((token_id, owner, spender), after);
    }

    /// Lowers the allowance by `value`. Where the allowance does not cover
    /// the value, it stays as it is. Either way the entry exists afterwards.
    pub fn decrease(&mut self, token_id: TokenId, owner: AccountId, spender: AccountId, value: Balance)
        ensures
            final(self)@ == after_decrease(old(self)@, token_id, owner, spender, value),
    {
        let before = self.get(token_id, owner, spender);
        let after = match checked_sub(before, value) {
            Some(difference) => difference,
            None => before,
        };
        self.entries.insert((token_id, owner, spender), after);
    }
}

} // verus!

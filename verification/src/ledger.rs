//! The ledger itself: the counter of tokens, the three tables, and the
//! four operations that change them.

use vstd::prelude::*;
use std::collections::BTreeMap;
use crate::allowances::AllowanceTable;
use crate::balances::BalanceTable;
use crate::state::{
    lemma_approve_wf, lemma_create_token_wf, lemma_transfer_from_wf, lemma_transfer_wf,
    LedgerState,
};
use crate::types::{
    AccountId, Balance, Erc20Token, Error, Event, TokenField, TokenId, TokenRecord, MAX_NAME_LEN,
    MAX_TICKER_LEN,
};

verus! {

/// A ledger of fungible tokens. It owns its tables: they change through
/// [`Ledger::create_token`], [`Ledger::approve`], [`Ledger::transfer`] and
/// [`Ledger::transfer_from`] and in no other way.
pub struct Ledger {
    next_token_id: TokenId,
    tokens: BTreeMap<TokenId, Erc20Token<Balance>>,
    balances: BalanceTable,
    allowances: AllowanceTable,
}

impl View for Ledger {
    type V = LedgerState;

    closed spec fn view(&self) -> LedgerState {
        LedgerState {
            next_token_id: self.next_token_id as nat,
            tokens: Map::new(
                |token_id: TokenId| self.tokens@.contains_key(token_id),
                |token_id: TokenId| self.tokens@[token_id]@,
            ),
            balances: self.balances@,
            allowances: self.allowances@,
        }
    }
}

impl Ledger {
    /// A ledger without tokens.
    pub fn new() -> (ledger: Self)
        ensures
            ledger@ == LedgerState::empty(),
            ledger@.wf(),
    {
        let ledger = Ledger {
            next_token_id: 0,
            tokens: BTreeMap::new(),
            balances: BalanceTable::new(),
            allowances: AllowanceTable::new(),
        };
        assert(ledger@.tokens =~= Map::<TokenId, TokenRecord<Balance>>::empty());
        ledger
    }

    /// The identifier that the next token will get, which is the number
    /// of tokens created so far.
    pub fn token_id(&self) -> (next: TokenId)
        ensures
            next == self@.next_token_id,
    {
        self.next_token_id
    }

    /// The record of a token, if it exists.
    pub fn token_details(&self, token_id: TokenId) -> (details: Option<&Erc20Token<Balance>>)
        ensures
            match details {
                Some(token) => self@.tokens.contains_key(token_id) && token@
                    == self@.tokens[token_id],
                None => !self@.tokens.contains_key(token_id),
            },
    {
        self.tokens.get(&token_id)
    }

    /// What `who` holds of the token; zero where it has no entry.
    pub fn balance_of(&self, token_id: TokenId, who: AccountId) -> (amount: Balance)
        ensures
            amount == self@.balance_of(token_id, who),
    {
        self.balances.get(token_id, who)
    }

    /// What `spender` may still move out of `owner`'s balance of the
    /// token; zero where there is no entry.
    pub fn allowance(&self, token_id: TokenId, owner: AccountId, spender: AccountId) -> (amount: Balance)
        ensures
            amount == self@.allowance(token_id, owner, spender),
    {
        self.allowances.get(token_id, owner, spender)
    }

    /// Creates a token and gives its whole supply to the caller.
    ///
    /// A name of more than 64 bytes or a ticker of more than 32 is
    /// refused, and a refused call leaves the counter where it was.
    /// Otherwise the token gets the next identifier, which is returned.
    /// No event reports a creation.
    pub fn create_token(&mut self, caller: AccountId, name: Vec<u8>, ticker: Vec<u8>, total_supply: Balance) -> (outcome: Result<TokenId, Error>)
        requires
            old(self)@.wf(),
            old(self)@.next_token_id < TokenId::MAX,
        ensures
            outcome == old(self)@.create_token_outcome(name@, ticker@),
            final(self)@ == old(self)@.after_create_token(caller, name@, ticker@, total_supply),
            outcome.is_err() ==> final(self)@ == old(self)@,
            final(self)@.wf(),
    {
        if name.len() > MAX_NAME_LEN {
            return Err(Error::ValidationError(TokenField::Name));
        }
        if ticker.len() > MAX_TICKER_LEN {
            return Err(Error::ValidationError(TokenField::Ticker));
        }
        let token_id = self.next_token_id;
        self.next_token_id = token_id + 1;
        self.tokens.insert(token_id, Erc20Token::new(name, ticker, total_supply));
        self.balances.insert(token_id, caller, total_supply);
        proof {
            let after = old(self)@.after_create_token(caller, name@, ticker@, total_supply);
            assert(self@.tokens =~= after.tokens);
            lemma_create_token_wf(old(self)@, caller, name@, ticker@, total_supply);
        }
        Ok(token_id)
    }

    /// Raises by `value` what `spender` may move out of the caller's
    /// balance of the token.
    ///
    /// The caller needs a balance entry for the token, whatever its
    /// amount. Where the raised allowance would overflow, it stays as it
    /// is and the call succeeds all the same. The event reports the value
    /// asked for.
    pub fn approve(&mut self, caller: AccountId, token_id: TokenId, spender: AccountId, value: Balance) -> (outcome: Result<Event, Error>)
        requires
            old(self)@.wf(),
        ensures
            outcome == old(self)@.approve_outcome(caller, token_id, spender, value),
            final(self)@ == old(self)@.after_approve(caller, token_id, spender, value),
            final(self)@.balances == old(self)@.balances,
            outcome.is_err() ==> final(self)@ == old(self)@,
            final(self)@.wf(),
    {
        if !self.balances.has_entry(token_id, caller) {
            return Err(Error::NotAnOwner);
        }
        self.allowances.increase(token_id, caller, spender, value);
        proof {
            lemma_approve_wf(old(self)@, caller, token_id, spender, value);
        }
        Ok(Event::Approval { token_id, owner: caller, spender, value })
    }

    /// Moves `value` of the token from the caller to `to`.
    ///
    /// The caller needs a balance entry for the token and a balance
    /// greater than `value`. A transfer that fails changes nothing.
    pub fn transfer(&mut self, caller: AccountId, token_id: TokenId, to: AccountId, value: Balance) -> (outcome: Result<Event, Error>)
        requires
            old(self)@.wf(),
        ensures
            outcome == old(self)@.transfer_outcome(caller, token_id, to, value),
            final(self)@ == old(self)@.after_transfer(caller, token_id, to, value),
            outcome.is_err() ==> final(self)@ == old(self)@,
            final(self)@.wf(),
    {
        proof {
            lemma_transfer_wf(old(self)@, caller, token_id, to, value);
        }
        self.balances.transfer(token_id, caller, to, value)
    }

    /// Moves `value` of the token from `from` to `to` on the strength of
    /// the allowance that `from` gave to `to`, and uses up that much of
    /// the allowance.
    ///
    /// The allowance entry must exist and cover `value`, and the transfer
    /// must succeed as in [`Ledger::transfer`]. A call that fails changes
    /// neither the allowance nor any balance. The caller's identity plays
    /// no part: the allowance is the authorization.
    pub fn transfer_from(&mut self, caller: AccountId, token_id: TokenId, from: AccountId, to: AccountId, value: Balance) -> (outcome: Result<(Event, Event), Error>)
        requires
            old(self)@.wf(),
        ensures
            outcome == old(self)@.transfer_from_outcome(caller, token_id, from, to, value),
            final(self)@ == old(self)@.after_transfer_from(caller, token_id, from, to, value),
            outcome.is_err() ==> final(self)@ == old(self)@,
            final(self)@.wf(),
    {
        if !self.allowances.has_entry(token_id, from, to) {
            return Err(Error::NoAllowance);
        }
        if self.allowances.get(token_id, from, to) < value {
            return Err(Error::InsufficientAllowance);
        }
        proof {
            lemma_transfer_from_wf(old(self)@, caller, token_id, from, to, value);
        }
        match self.balances.transfer(token_id, from, to, value) {
            Ok(transferred) => {
                self.allowances.decrease(token_id, from, to, value);
                Ok((Event::Approval { token_id, owner: from, spender: to, value }, transferred))
            },
            Err(error) => Err(error),
        }
    }
}

} // verus!

//! The ledger as a mathematical value, and what each of its four
//! operations makes of it.

use vstd::prelude::*;
use crate::allowances::{after_decrease, after_increase, amount_allowed};
use crate::balances::{after_transfer, lemma_transfer_conserves, transfer_outcome};
use crate::holdings::{
    account_count, amount_held, lemma_held_below_absent, lemma_pair_within_total,
    lemma_total_insert, total_held,
};
use crate::types::{
    AccountId, Balance, Error, Event, TokenField, TokenId, TokenRecord, MAX_NAME_LEN,
    MAX_TICKER_LEN,
};

verus! {

/// The state of a ledger: the next identifier to hand out, and the three
/// tables.
pub struct LedgerState {
    /// The number of tokens created so far, which is the identifier that
    /// the next token gets.
    pub next_token_id: nat,
    /// The record of every token, by identifier.
    pub tokens: Map<TokenId, TokenRecord<Balance>>,
    /// The balance entries, by token and account.
    pub balances: Map<(TokenId, AccountId), Balance>,
    /// The allowance entries, by token, owner and spender.
    pub allowances: Map<(TokenId, AccountId, AccountId), Balance>,
}

impl LedgerState {
    /// The state of a ledger on which nothing has happened yet.
    pub open spec fn empty() -> LedgerState {
        LedgerState {
            next_token_id: 0,
            tokens: Map::empty(),
            balances: Map::empty(),
            allowances: Map::empty(),
        }
    }

    /// What `who` holds of the token; zero without an entry.
    pub open spec fn balance_of(self, token_id: TokenId, who: AccountId) -> Balance {
        amount_held(self.balances, token_id, who)
    }

    /// What `spender` may still move out of `owner`'s balance; zero
    /// without an entry.
    pub open spec fn allowance(self, token_id: TokenId, owner: AccountId, spender: AccountId) -> Balance {
        amount_allowed(self.allowances, token_id, owner, spender)
    }

    /// Conservation: the balances of every token add up to the supply
    /// that the token was created with.
    pub open spec fn conserved(self) -> bool {
        forall|token_id: TokenId| #[trigger]
            self.tokens.contains_key(token_id) ==> total_held(self.balances, token_id)
                == self.tokens[token_id].total_supply
    }

    /// What holds of every state that the four operations can reach: the
    /// tokens are those numbered below the counter, their names and
    /// tickers are within the limits, balances exist only for tokens that
    /// exist, allowances only for owners with a balance entry, and the
    /// balances are conserved.
    pub open spec fn wf(self) -> bool {
        &&& self.next_token_id <= TokenId::MAX
        &&& forall|token_id: TokenId| #[trigger]
            self.tokens.contains_key(token_id) <==> token_id < self.next_token_id
        &&& forall|token_id: TokenId| #[trigger]
            self.tokens.contains_key(token_id) ==> self.tokens[token_id].name.len() <= MAX_NAME_LEN
                && self.tokens[token_id].ticker.len() <= MAX_TICKER_LEN
        &&& forall|token_id: TokenId, who: AccountId| #[trigger]
            self.balances.contains_key((token_id, who)) ==> self.tokens.contains_key(token_id)
        &&& forall|token_id: TokenId, owner: AccountId, spender: AccountId| #[trigger]
            self.allowances.contains_key((token_id, owner, spender))
                ==> self.balances.contains_key((token_id, owner))
        &&& self.conserved()
    }

    /// How `create_token` ends: with the next identifier, unless the name
    /// or, failing that, the ticker is too long.
    pub open spec fn create_token_outcome(self, name: Seq<u8>, ticker: Seq<u8>) -> Result<TokenId, Error> {
        if name.len() > MAX_NAME_LEN {
            Err(Error::ValidationError(TokenField::Name))
        } else if ticker.len() > MAX_TICKER_LEN {
            Err(Error::ValidationError(TokenField::Ticker))
        } else {
            Ok(self.next_token_id as TokenId)
        }
    }

    /// The state after `create_token`: where it succeeds, the counter has
    /// advanced by one, the token is recorded and the caller holds the
    /// whole supply.
    pub open spec fn after_create_token(
        self,
        caller: AccountId,
        name: Seq<u8>,
        ticker: Seq<u8>,
        total_supply: Balance,
    ) -> LedgerState {
        if self.create_token_outcome(name, ticker).is_ok() {
            let token_id = self.next_token_id as TokenId;
            LedgerState {
                next_token_id: self.next_token_id + 1,
                tokens: self.tokens.insert(token_id, TokenRecord { name, ticker, total_supply }),
                balances: self.balances.insert((token_id, caller), total_supply),
                allowances: self.allowances,
            }
        } else {
            self
        }
    }

    /// How `approve` ends: with the approval that was asked for, unless
    /// the caller has no balance entry for the token.
    pub open spec fn approve_outcome(
        self,
        caller: AccountId,
        token_id: TokenId,
        spender: AccountId,
        value: Balance,
    ) -> Result<Event, Error> {
        if !self.balances.contains_key((token_id, caller)) {
            Err(Error::NotAnOwner)
        } else {
            Ok(Event::Approval { token_id, owner: caller, spender, value })
        }
    }

    /// The state after `approve`: where it succeeds, the allowance has
    /// grown by the value, or stayed as it was where the sum overflows.
    pub open spec fn after_approve(
        self,
        caller: AccountId,
        token_id: TokenId,
        spender: AccountId,
        value: Balance,
    ) -> LedgerState {
        if self.approve_outcome(caller, token_id, spender, value).is_ok() {
            LedgerState {
                allowances: after_increase(self.allowances, token_id, caller, spender, value),
                ..self
            }
        } else {
            self
        }
    }

    /// How `transfer` ends: as the transfer of `value` from the caller
    /// to `to` does on the balances.
    pub open spec fn transfer_outcome(
        self,
        caller: AccountId,
        token_id: TokenId,
        to: AccountId,
        value: Balance,
    ) -> Result<Event, Error> {
        transfer_outcome(self.balances, token_id, caller, to, value)
    }

    /// The state after `transfer`: the balances after the transfer from
    /// the caller to `to`, and nothing else changed.
    pub open spec fn after_transfer(
        self,
        caller: AccountId,
        token_id: TokenId,
        to: AccountId,
        value: Balance,
    ) -> LedgerState {
        LedgerState { balances: after_transfer(self.balances, token_id, caller, to, value), ..self }
    }

    /// How `transfer_from` ends. It needs an allowance entry for `from`
    /// as owner and `to` as spender, then an allowance that covers the
    /// value, and then the transfer itself must succeed. It reports the
    /// allowance used up and the transfer, in this order. Who calls plays
    /// no part.
    pub open spec fn transfer_from_outcome(
        self,
        caller: AccountId,
        token_id: TokenId,
        from: AccountId,
        to: AccountId,
        value: Balance,
    ) -> Result<(Event, Event), Error> {
        if !self.allowances.contains_key((token_id, from, to)) {
            Err(Error::NoAllowance)
        } else if self.allowances[(token_id, from, to)] < value {
            Err(Error::InsufficientAllowance)
        } else {
            match transfer_outcome(self.balances, token_id, from, to, value) {
                Ok(transferred) => Ok(
                    (Event::Approval { token_id, owner: from, spender: to, value }, transferred),
                ),
                Err(error) => Err(error),
            }
        }
    }

    /// The state after `transfer_from`: where it succeeds, the allowance
    /// has shrunk by the value and the balances are those after the
    /// transfer; where it fails, nothing changed.
    pub open spec fn after_transfer_from(
        self,
        caller: AccountId,
        token_id: TokenId,
        from: AccountId,
        to: AccountId,
        value: Balance,
    ) -> LedgerState {
        if self.transfer_from_outcome(caller, token_id, from, to, value).is_ok() {
            LedgerState {
                balances: after_transfer(self.balances, token_id, from, to, value),
                allowances: after_decrease(self.allowances, token_id, from, to, value),
                ..self
            }
        } else {
            self
        }
    }
}

/// The empty state is well formed.
pub proof fn lemma_empty_wf()
    ensures
        LedgerState::empty().wf(),
{
}

/// `create_token` keeps a state well formed, as long as an identifier is
/// left to hand out. In particular the new token's balances add up to its
/// supply, and those of the other tokens are untouched.
pub proof fn lemma_create_token_wf(
    state: LedgerState,
    caller: AccountId,
    name: Seq<u8>,
    ticker: Seq<u8>,
    total_supply: Balance,
)
    requires
        state.wf(),
        state.next_token_id < TokenId::MAX,
    ensures
        state.after_create_token(caller, name, ticker, total_supply).wf(),
{
    let after = state.after_create_token(caller, name, ticker, total_supply);
    if state.create_token_outcome(name, ticker).is_ok() {
        let created = state.next_token_id as TokenId;
        assert(!state.tokens.contains_key(created));
        assert forall|token_id: TokenId| #[trigger]
            after.tokens.contains_key(token_id) implies total_held(after.balances, token_id)
            == after.tokens[token_id].total_supply by {
            lemma_total_insert(state.balances, token_id, created, caller, total_supply);
            if token_id == created {
                assert forall|who: AccountId| !state.balances.contains_key((created, who)) by {}
                lemma_held_below_absent(state.balances, created, account_count());
            } else {
                assert(state.tokens.contains_key(token_id));
            }
        }
    }
}

/// `approve` keeps a state well formed.
pub proof fn lemma_approve_wf(
    state: LedgerState,
    caller: AccountId,
    token_id: TokenId,
    spender: AccountId,
    value: Balance,
)
    requires
        state.wf(),
    ensures
        state.after_approve(caller, token_id, spender, value).wf(),
{
}

/// `transfer` keeps a state well formed.
pub proof fn lemma_transfer_wf(
    state: LedgerState,
    caller: AccountId,
    token_id: TokenId,
    to: AccountId,
    value: Balance,
)
    requires
        state.wf(),
    ensures
        state.after_transfer(caller, token_id, to, value).wf(),
{
    let after = state.after_transfer(caller, token_id, to, value);
    assert forall|any_token: TokenId| #[trigger]
        after.tokens.contains_key(any_token) implies total_held(after.balances, any_token)
        == after.tokens[any_token].total_supply by {
        lemma_transfer_conserves(state.balances, token_id, caller, to, value, any_token);
    }
}

/// In a well-formed state no transfer fails for overflow: the balances
/// of two accounts together stay within the token's supply, so the
/// credit always fits.
pub proof fn lemma_transfer_fits(
    state: LedgerState,
    token_id: TokenId,
    from: AccountId,
    to: AccountId,
    value: Balance,
)
    requires
        state.wf(),
    ensures
        transfer_outcome(state.balances, token_id, from, to, value) != Err::<Event, Error>(
            Error::TransferOverflow,
        ),
        state.transfer_outcome(from, token_id, to, value) != Err::<Event, Error>(
            Error::TransferOverflow,
        ),
        forall|caller: AccountId|
            state.transfer_from_outcome(caller, token_id, from, to, value) != Err::<
                (Event, Event),
                Error,
            >(Error::TransferOverflow),
{
    if state.balances.contains_key((token_id, from)) && from != to {
        assert(state.tokens.contains_key(token_id));
        lemma_pair_within_total(state.balances, token_id, from, to);
    }
}

/// An `approve` whose sum overflows changes nothing at all.
pub proof fn lemma_overflowing_approve_changes_nothing(
    state: LedgerState,
    caller: AccountId,
    token_id: TokenId,
    spender: AccountId,
    value: Balance,
)
    requires
        state.allowance(token_id, caller, spender) + value > Balance::MAX,
    ensures
        state.after_approve(caller, token_id, spender, value) == state,
{
    assert(after_increase(state.allowances, token_id, caller, spender, value)
        =~= state.allowances);
}

/// `transfer_from` keeps a state well formed.
pub proof fn lemma_transfer_from_wf(
    state: LedgerState,
    caller: AccountId,
    token_id: TokenId,
    from: AccountId,
    to: AccountId,
    value: Balance,
)
    requires
        state.wf(),
    ensures
        state.after_transfer_from(caller, token_id, from, to, value).wf(),
{
    let after = state.after_transfer_from(caller, token_id, from, to, value);
    assert forall|any_token: TokenId| #[trigger]
        after.tokens.contains_key(any_token) implies total_held(after.balances, any_token)
        == after.tokens[any_token].total_supply by {
        lemma_transfer_conserves(state.balances, token_id, from, to, value, any_token);
    }
}

} // verus!

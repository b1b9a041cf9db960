//! Sequences of calls, and what holds of a ledger after any of them.

use vstd::prelude::*;
use crate::state::{
    lemma_approve_wf, lemma_create_token_wf, lemma_transfer_from_wf, lemma_transfer_wf,
    LedgerState,
};
use crate::types::{AccountId, Balance, TokenId};

verus! {

/// One call of one of the four operations, with its arguments.
pub enum Call {
    CreateToken { caller: AccountId, name: Seq<u8>, ticker: Seq<u8>, total_supply: Balance },
    Approve { caller: AccountId, token_id: TokenId, spender: AccountId, value: Balance },
    Transfer { caller: AccountId, token_id: TokenId, to: AccountId, value: Balance },
    TransferFrom {
        caller: AccountId,
        token_id: TokenId,
        from: AccountId,
        to: AccountId,
        value: Balance,
    },
}

impl LedgerState {
    /// Whether the ledger can take the call: creating a token needs an
    /// identifier that is left to hand out; the other calls need nothing.
    pub open spec fn accepts(self, call: Call) -> bool {
        call is CreateToken ==> self.next_token_id < TokenId::MAX
    }

    /// Whether the call fails: whether its operation returns an error.
    pub open spec fn fails(self, call: Call) -> bool {
        match call {
            Call::CreateToken { caller, name, ticker, total_supply } => self.create_token_outcome(
                name,
                ticker,
            ).is_err(),
            Call::Approve { caller, token_id, spender, value } => self.approve_outcome(
                caller,
                token_id,
                spender,
                value,
            ).is_err(),
            Call::Transfer { caller, token_id, to, value } => self.transfer_outcome(
                caller,
                token_id,
                to,
                value,
            ).is_err(),
            Call::TransferFrom { caller, token_id, from, to, value } => self.transfer_from_outcome(
                caller,
                token_id,
                from,
                to,
                value,
            ).is_err(),
        }
    }

    /// The state after one call.
    pub open spec fn after_call(self, call: Call) -> LedgerState {
        match call {
            Call::CreateToken { caller, name, ticker, total_supply } => self.after_create_token(
                caller,
                name,
                ticker,
                total_supply,
            ),
            Call::Approve { caller, token_id, spender, value } => self.after_approve(
                caller,
                token_id,
                spender,
                value,
            ),
            Call::Transfer { caller, token_id, to, value } => self.after_transfer(
                caller,
                token_id,
                to,
                value,
            ),
            Call::TransferFrom { caller, token_id, from, to, value } => self.after_transfer_from(
                caller,
                token_id,
                from,
                to,
                value,
            ),
        }
    }

    /// The state after a sequence of calls, made one after the other.
    pub open spec fn after_calls(self, calls: Seq<Call>) -> LedgerState
        decreases calls.len(),
    {
        if calls.len() == 0 {
            self
        } else {
            self.after_calls(calls.drop_last()).after_call(calls.last())
        }
    }

    /// Whether the ledger can take each call of the sequence in the state
    /// that the calls before it have left.
    pub open spec fn accepts_all(self, calls: Seq<Call>) -> bool
        decreases calls.len(),
    {
        calls.len() > 0 ==> self.accepts_all(calls.drop_last()) && self.after_calls(
            calls.drop_last(),
        ).accepts(calls.last())
    }

    /// What the call grants to `spender` out of `owner`'s balance of the
    /// token: the value of an `approve` by the owner for the spender that
    /// succeeds, and nothing otherwise.
    pub open spec fn granted(self, call: Call, token_id: TokenId, owner: AccountId, spender: AccountId) -> nat {
        match call {
            Call::Approve { caller, token_id: approved_token, spender: approved_spender, value } => {
                if approved_token == token_id && caller == owner && approved_spender == spender
                    && self.approve_outcome(caller, approved_token, approved_spender, value).is_ok() {
                    value as nat
                } else {
                    0
                }
            },
            _ => 0,
        }
    }

    /// What the call uses up of the allowance that `owner` gave to
    /// `spender`: the value of a `transfer_from` between the two that
    /// succeeds, and nothing otherwise.
    pub open spec fn used(self, call: Call, token_id: TokenId, owner: AccountId, spender: AccountId) -> nat {
        match call {
            Call::TransferFrom { caller, token_id: moved_token, from, to, value } => {
                if moved_token == token_id && from == owner && to == spender
                    && self.transfer_from_outcome(caller, moved_token, from, to, value).is_ok() {
                    value as nat
                } else {
                    0
                }
            },
            _ => 0,
        }
    }

    /// The sum of what the calls of a sequence grant, each in the state
    /// that the calls before it have left.
    pub open spec fn total_granted(
        self,
        calls: Seq<Call>,
        token_id: TokenId,
        owner: AccountId,
        spender: AccountId,
    ) -> nat
        decreases calls.len(),
    {
        if calls.len() == 0 {
            0
        } else {
            self.total_granted(calls.drop_last(), token_id, owner, spender) + self.after_calls(
                calls.drop_last(),
            ).granted(calls.last(), token_id, owner, spender)
        }
    }

    /// The sum of what the calls of a sequence use up, each in the state
    /// that the calls before it have left.
    pub open spec fn total_used(
        self,
        calls: Seq<Call>,
        token_id: TokenId,
        owner: AccountId,
        spender: AccountId,
    ) -> nat
        decreases calls.len(),
    {
        if calls.len() == 0 {
            0
        } else {
            self.total_used(calls.drop_last(), token_id, owner, spender) + self.after_calls(
                calls.drop_last(),
            ).used(calls.last(), token_id, owner, spender)
        }
    }

    /// Whether every grant of the sequence fits: none would raise the
    /// allowance beyond the largest [`Balance`].
    pub open spec fn grants_fit(
        self,
        calls: Seq<Call>,
        token_id: TokenId,
        owner: AccountId,
        spender: AccountId,
    ) -> bool
        decreases calls.len(),
    {
        calls.len() > 0 ==> {
            let before = self.after_calls(calls.drop_last());
            &&& self.grants_fit(calls.drop_last(), token_id, owner, spender)
            &&& before.allowance(token_id, owner, spender) + before.granted(
                calls.last(),
                token_id,
                owner,
                spender,
            ) <= Balance::MAX
        }
    }
}

/// Atomicity: a call that fails, for whatever reason, leaves no trace.
/// No balance, no allowance, no token record and not the counter differ
/// from what they were.
pub proof fn lemma_failed_call_changes_nothing(state: LedgerState, call: Call)
    requires
        state.fails(call),
    ensures
        state.after_call(call) == state,
{
}

/// Every call that the ledger can take keeps it well formed, and so
/// keeps every token's balances adding up to its supply.
pub proof fn lemma_call_wf(state: LedgerState, call: Call)
    requires
        state.wf(),
        state.accepts(call),
    ensures
        state.after_call(call).wf(),
        state.after_call(call).conserved(),
{
    match call {
        Call::CreateToken { caller, name, ticker, total_supply } => {
            lemma_create_token_wf(state, caller, name, ticker, total_supply);
        },
        Call::Approve { caller, token_id, spender, value } => {
            lemma_approve_wf(state, caller, token_id, spender, value);
        },
        Call::Transfer { caller, token_id, to, value } => {
            lemma_transfer_wf(state, caller, token_id, to, value);
        },
        Call::TransferFrom { caller, token_id, from, to, value } => {
            lemma_transfer_from_wf(state, caller, token_id, from, to, value);
        },
    }
}

/// Conservation at every point: after any sequence of calls that the
/// ledger can take, the balances of every token add up to the supply that
/// the token was created with.
pub proof fn lemma_calls_conserve(state: LedgerState, calls: Seq<Call>)
    requires
        state.wf(),
        state.accepts_all(calls),
    ensures
        state.after_calls(calls).wf(),
        state.after_calls(calls).conserved(),
    decreases calls.len(),
{
    if calls.len() > 0 {
        lemma_calls_conserve(state, calls.drop_last());
        lemma_call_wf(state.after_calls(calls.drop_last()), calls.last());
    }
}

/// A token, once created, keeps its record: no call changes the name,
/// the ticker or the supply of a token that exists.
pub proof fn lemma_call_keeps_tokens(state: LedgerState, call: Call, token_id: TokenId)
    requires
        state.wf(),
        state.accepts(call),
        state.tokens.contains_key(token_id),
    ensures
        state.after_call(call).tokens.contains_key(token_id),
        state.after_call(call).tokens[token_id] == state.tokens[token_id],
{
}

/// One call changes an allowance by what it grants less what it uses up,
/// as long as the grant fits. It never uses up more than the allowance
/// held before the call.
pub proof fn lemma_call_allowance(
    state: LedgerState,
    call: Call,
    token_id: TokenId,
    owner: AccountId,
    spender: AccountId,
)
    requires
        state.allowance(token_id, owner, spender) + state.granted(call, token_id, owner, spender)
            <= Balance::MAX,
    ensures
        state.used(call, token_id, owner, spender) <= state.allowance(token_id, owner, spender),
        state.after_call(call).allowance(token_id, owner, spender) == state.allowance(
            token_id,
            owner,
            spender,
        ) + state.granted(call, token_id, owner, spender) - state.used(
            call,
            token_id,
            owner,
            spender,
        ),
{
}

/// Allowance accounting: after any sequence of calls, an allowance is
/// what it was before, plus the sum of what was granted, less the sum of
/// what was used up, as long as every grant fits. What was used up never
/// exceeds what was there, so no allowance goes below zero.
pub proof fn lemma_calls_allowance(
    state: LedgerState,
    calls: Seq<Call>,
    token_id: TokenId,
    owner: AccountId,
    spender: AccountId,
)
    requires
        state.grants_fit(calls, token_id, owner, spender),
    ensures
        state.total_used(calls, token_id, owner, spender) <= state.allowance(
            token_id,
            owner,
            spender,
        ) + state.total_granted(calls, token_id, owner, spender),
        state.after_calls(calls).allowance(token_id, owner, spender) == state.allowance(
            token_id,
            owner,
            spender,
        ) + state.total_granted(calls, token_id, owner, spender) - state.total_used(
            calls,
            token_id,
            owner,
            spender,
        ),
    decreases calls.len(),
{
    if calls.len() > 0 {
        lemma_calls_allowance(state, calls.drop_last(), token_id, owner, spender);
        lemma_call_allowance(
            state.after_calls(calls.drop_last()),
            calls.last(),
            token_id,
            owner,
            spender,
        );
    }
}

} // verus!

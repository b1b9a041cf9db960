//! What a table of balances adds up to, token by token.
//!
//! A table maps a token and an account to an amount; an account without
//! an entry holds nothing. The total of a token is the sum of what every
//! account holds of it.

use vstd::prelude::*;
use crate::types::{AccountId, Balance, TokenId};

verus! {

/// The number of account identifiers there are.
pub open spec fn account_count() -> nat {
    0x1_0000_0000_0000_0000
}

/// What `who` holds of the token: the entry's amount, or zero where the
/// table has no entry.
pub open spec fn amount_held(
    table: Map<(TokenId, AccountId), Balance>,
    token_id: TokenId,
    who: AccountId,
) -> Balance {
    if table.contains_key((token_id, who)) {
        table[(token_id, who)]
    } else {
        0
    }
}

/// The sum of what the accounts numbered below `bound` hold of the token.
pub open spec fn held_below(
    table: Map<(TokenId, AccountId), Balance>,
    token_id: TokenId,
    bound: nat,
) -> nat
    decreases bound,
{
    if bound == 0 || bound > account_count() {
        0
    } else {
        held_below(table, token_id, (bound - 1) as nat) + amount_held(
            table,
            token_id,
            (bound - 1) as AccountId,
        ) as nat
    }
}

/// The sum of what all accounts hold of the token.
pub open spec fn total_held(table: Map<(TokenId, AccountId), Balance>, token_id: TokenId) -> nat {
    held_below(table, token_id, account_count())
}

/// Writing an entry changes the sum below a bound by the difference
/// between the new amount and what the account held, where the entry is
/// of this token and the account is below the bound; otherwise not at all.
pub proof fn lemma_held_below_insert(
    table: Map<(TokenId, AccountId), Balance>,
    token_id: TokenId,
    bound: nat,
    entry_token: TokenId,
    who: AccountId,
    amount: Balance,
)
    requires
        bound <= account_count(),
    ensures
        held_below(table.insert((entry_token, who), amount), token_id, bound) == held_below(
            table,
            token_id,
            bound,
        ) + (if entry_token == token_id && who < bound {
            amount - amount_held(table, token_id, who)
        } else {
            0
        }),
    decreases bound,
{
    if bound > 0 {
        lemma_held_below_insert(table, token_id, (bound - 1) as nat, entry_token, who, amount);
    }
}

/// Writing an entry of a token changes that token's total by the
/// difference between the new amount and what the account held, and no
/// other token's total.
pub proof fn lemma_total_insert(
    table: Map<(TokenId, AccountId), Balance>,
    token_id: TokenId,
    entry_token: TokenId,
    who: AccountId,
    amount: Balance,
)
    ensures
        entry_token == token_id ==> total_held(table.insert((entry_token, who), amount), token_id)
            == total_held(table, token_id) - amount_held(table, token_id, who) + amount,
        entry_token != token_id ==> total_held(table.insert((entry_token, who), amount), token_id)
            == total_held(table, token_id),
{
    lemma_held_below_insert(table, token_id, account_count(), entry_token, who, amount);
}

/// A token that has no entry in the table has a sum of zero below every
/// bound.
pub proof fn lemma_held_below_absent(
    table: Map<(TokenId, AccountId), Balance>,
    token_id: TokenId,
    bound: nat,
)
    requires
        forall|who: AccountId| !table.contains_key((token_id, who)),
    ensures
        held_below(table, token_id, bound) == 0,
    decreases bound,
{
    if bound > 0 {
        lemma_held_below_absent(table, token_id, (bound - 1) as nat);
    }
}

/// The sum below a bound grows with the bound.
pub proof fn lemma_held_below_grows(
    table: Map<(TokenId, AccountId), Balance>,
    token_id: TokenId,
    lower: nat,
    upper: nat,
)
    requires
        lower <= upper <= account_count(),
    ensures
        held_below(table, token_id, lower) <= held_below(table, token_id, upper),
    decreases upper,
{
    if lower < upper {
        lemma_held_below_grows(table, token_id, lower, (upper - 1) as nat);
    }
}

/// No account holds more of a token than the token's total.
pub proof fn lemma_amount_within_total(
    table: Map<(TokenId, AccountId), Balance>,
    token_id: TokenId,
    who: AccountId,
)
    ensures
        amount_held(table, token_id, who) <= total_held(table, token_id),
{
    lemma_held_below_grows(table, token_id, (who + 1) as nat, account_count());
}

/// Two different accounts together hold no more of a token than the
/// token's total.
pub proof fn lemma_pair_within_total(
    table: Map<(TokenId, AccountId), Balance>,
    token_id: TokenId,
    first: AccountId,
    second: AccountId,
)
    requires
        first != second,
    ensures
        amount_held(table, token_id, first) + amount_held(table, token_id, second) <= total_held(
            table,
            token_id,
        ),
{
    let low = if first < second { first } else { second };
    let high = if first < second { second } else { first };
    lemma_held_below_grows(table, token_id, (low + 1) as nat, high as nat);
    lemma_held_below_grows(table, token_id, (high + 1) as nat, account_count());
}

} // verus!

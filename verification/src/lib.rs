//! A ledger of fungible tokens: any number of tokens, each with a fixed
//! supply, balances per account and allowances per owner and spender.
//!
//! [`Ledger`] holds the state and offers the four operations that change
//! it. [`state::LedgerState`] is the same state as a mathematical value;
//! the contracts of the operations are written over it, and
//! [`history`] proves what holds after any sequence of calls.

pub mod allowances;
mod arith;
pub mod balances;
pub mod history;
pub mod holdings;
pub mod ledger;
pub mod state;
pub mod types;

pub use allowances::AllowanceTable;
pub use balances::BalanceTable;
pub use ledger::Ledger;
pub use types::{
    AccountId, Balance, Erc20Token, Error, Event, TokenField, TokenId, TokenRecord, MAX_NAME_LEN,
    MAX_TICKER_LEN,
};

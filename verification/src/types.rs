//! The plain values that the ledger works on: identifiers, amounts, the
//! record of a token, the events it emits and the errors it reports.

use vstd::prelude::*;

verus! {

/// Identifier of a token, handed out in sequence starting at zero.
pub type TokenId = u32;

/// Identifier of an account, already authenticated by the host.
pub type AccountId = u64;

/// A quantity of some token.
pub type Balance = u128;

/// Longest name, in bytes, that a token may carry.
pub const MAX_NAME_LEN: usize = 64;

/// Longest ticker, in bytes, that a token may carry.
pub const MAX_TICKER_LEN: usize = 32;

/// What is recorded of a token when it is created. Nothing of it changes
/// afterwards.
#[derive(Clone, Debug, Default, PartialEq, Eq)]
pub struct Erc20Token<U> {
    name: Vec<u8>,
    ticker: Vec<u8>,
    total_supply: U,
}

/// The mathematical value of an [`Erc20Token`].
pub struct TokenRecord<U> {
    pub name: Seq<u8>,
    pub ticker: Seq<u8>,
    pub total_supply: U,
}

impl<U> View for Erc20Token<U> {
    type V = TokenRecord<U>;

    closed spec fn view(&self) -> TokenRecord<U> {
        TokenRecord { name: self.name@, ticker: self.ticker@, total_supply: self.total_supply }
    }
}

impl<U: Copy> Erc20Token<U> {
    /// Puts the three attributes of a token together.
    pub fn new(name: Vec<u8>, ticker: Vec<u8>, total_supply: U) -> (token: Self)
        ensures
            token@ == (TokenRecord { name: name@, ticker: ticker@, total_supply }),
    {
        Erc20Token { name, ticker, total_supply }
    }

    /// The token's name.
    pub fn name(&self) -> (name: &Vec<u8>)
        ensures
            name@ == self@.name,
    {
        &self.name
    }

    /// The token's ticker symbol.
    pub fn ticker(&self) -> (ticker: &Vec<u8>)
        ensures
            ticker@ == self@.ticker,
    {
        &self.ticker
    }

    /// The quantity that was issued when the token was created.
    pub fn total_supply(&self) -> (total_supply: U)
        ensures
            total_supply == self@.total_supply,
    {
        self.total_supply
    }
}

/// The attribute of a token that failed validation.
#[derive(Clone, Copy, Debug, PartialEq, Eq, Structural)]
pub enum TokenField {
    /// The name is longer than [`MAX_NAME_LEN`] bytes.
    Name,
    /// The ticker is longer than [`MAX_TICKER_LEN`] bytes.
    Ticker,
}

/// Why an operation was refused. A refused operation changes nothing.
#[derive(Clone, Copy, Debug, PartialEq, Eq, Structural)]
pub enum Error {
    /// A name or ticker is longer than allowed.
    ValidationError(TokenField),
    /// The account has no balance entry for the token.
    NotAnOwner,
    /// No allowance entry exists for the owner and spender.
    NoAllowance,
    /// The allowance is smaller than the value asked for.
    InsufficientAllowance,
    /// The sender's balance does not cover the value.
    InsufficientBalance,
    /// Crediting the receiver would exceed the largest balance.
    TransferOverflow,
}

impl Error {
    /// The wording of [`Error::message`], as a sequence of characters.
    pub open spec fn message_text(self) -> Seq<char> {
        match self {
            Error::ValidationError(TokenField::Name) => "token name cannot exceed 64 bytes"@,
            Error::ValidationError(TokenField::Ticker) => "token ticker cannot exceed 32 bytes"@,
            Error::NotAnOwner => "Account does not own this token"@,
            Error::NoAllowance => "Allowance does not exist."@,
            Error::InsufficientAllowance => "Not enough allowance."@,
            Error::InsufficientBalance => "Not enough balance."@,
            Error::TransferOverflow => "Transfer failed because of overflow."@,
        }
    }

    /// A sentence for the host to show, one for each failed precondition.
    pub fn message(&self) -> (text: &'static str)
        ensures
            text@ == self.message_text(),
    {
        match self {
            Error::ValidationError(TokenField::Name) => "token name cannot exceed 64 bytes",
            Error::ValidationError(TokenField::Ticker) => "token ticker cannot exceed 32 bytes",
            Error::NotAnOwner => "Account does not own this token",
            Error::NoAllowance => "Allowance does not exist.",
            Error::InsufficientAllowance => "Not enough allowance.",
            Error::InsufficientBalance => "Not enough balance.",
            Error::TransferOverflow => "Transfer failed because of overflow.",
        }
    }
}

/// What the ledger tells its host about a completed operation.
#[derive(Clone, Copy, Debug, PartialEq, Eq, Structural)]
pub enum Event {
    /// `value` of the token moved from `from` to `to`.
    Transfer { token_id: TokenId, from: AccountId, to: AccountId, value: Balance },
    /// `owner` raised what `spender` may move by `value`, or `spender` used
    /// up `value` of it.
    Approval { token_id: TokenId, owner: AccountId, spender: AccountId, value: Balance },
}

} // verus!

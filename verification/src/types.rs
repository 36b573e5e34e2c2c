//! The plain values the ledger works with.

use vstd::prelude::*;

verus! {

/// Identifies an account.
pub type AccountId = u64;

/// An amount of tokens.
pub type Balance = u64;

/// Number of decimals a token has when its genesis names none.
pub const DEFAULT_DECIMALS: u8 = 18;

/// An allowance of this size is never reduced by spending.
pub const UNLIMITED_ALLOWANCE: Balance = 0xffff_ffff_ffff_ffff;

/// Stands in an event for "nobody": the source of minted tokens and the
/// destination of burnt ones.
pub const ZERO_ACCOUNT: AccountId = 0;

/// The decimals of a ledger that was never told any.
#[allow(non_snake_case)]
pub fn DefaultDecimals() -> (decimals: u8)
    ensures
        decimals == DEFAULT_DECIMALS,
{
    DEFAULT_DECIMALS
}

/// Why an operation was refused.
#[derive(Clone, Copy, Debug, PartialEq, Eq, Structural)]
pub enum Error {
    /// The sender holds less than the amount to transfer.
    TransferAmountExceedsBalance,
    /// The allowance is smaller than the amount to take off it.
    DecreasedAllowanceBelowZero,
    /// A balance, an allowance or the total supply would leave its range.
    BalanceOverflow,
    /// The spender may not move that much of the owner's tokens.
    InsufficientAllowance,
    /// The account holds less than the amount to burn.
    BurnAmountExceedsBalance,
}

/// What the ledger reports of a completed operation.
#[derive(Clone, Copy, Debug, PartialEq, Eq, Structural)]
pub enum Event {
    /// Tokens moved: source, destination, amount.
    Transfer(AccountId, AccountId, Balance),
    /// An allowance was set: owner, spender, new allowance.
    Approval(AccountId, AccountId, Balance),
}

} // verus!

//! A fungible-token ledger: account balances, delegated allowances and a
//! total supply that always equals the sum of the balances.

pub mod genesis;
pub mod laws;
pub mod ledger;
pub mod model;
pub mod sums;
pub mod types;

pub use genesis::GenesisConfig;
pub use ledger::Pallet;
pub use model::{Call, LedgerView};
pub use types::{
    AccountId, Balance, DefaultDecimals, Error, Event, DEFAULT_DECIMALS, UNLIMITED_ALLOWANCE,
    ZERO_ACCOUNT,
};

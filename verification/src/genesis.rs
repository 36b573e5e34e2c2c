//! How a ledger comes into being.

use vstd::prelude::*;
use crate::ledger::Pallet;
use crate::model::{account_space, entries_total, genesis_balances, LedgerView};
use crate::sums::{
    lemma_credit_conserves, lemma_entries_total_grows, lemma_genesis_balances_step,
    lemma_sum_of_nothing,
};
use crate::types::{AccountId, Balance, DEFAULT_DECIMALS};

verus! {

/// What is said when the listed amounts add up to more than a supply can be.
pub open spec fn supply_overflow_message() -> Seq<char> {
    "Genesis build failed: Total supply overflow"@
}

/// What a ledger starts from.
#[derive(Clone, Debug)]
pub struct GenesisConfig {
    /// Accounts and the tokens each is given. An account listed more than
    /// once is given the sum of its entries.
    pub balances: Vec<(AccountId, Balance)>,
    /// Name of the token.
    pub name: Vec<u8>,
    /// Symbol of the token.
    pub sym: Vec<u8>,
    /// Number of decimals of the token; the default where none is named.
    pub decimals: Option<u8>,
}

impl Default for GenesisConfig {
    /// No accounts, no name, no symbol, and the default decimals.
    fn default() -> (config: GenesisConfig)
        ensures
            config.balances@ == Seq::<(AccountId, Balance)>::empty(),
            config.name@ == Seq::<u8>::empty(),
            config.sym@ == Seq::<u8>::empty(),
            config.decimals is None,
    {
        GenesisConfig { balances: Vec::new(), name: Vec::new(), sym: Vec::new(), decimals: None }
    }
}

impl GenesisConfig {
    /// The sum of all listed amounts.
    pub open spec fn total(&self) -> int {
        entries_total(self.balances@, self.balances@.len() as int)
    }

    /// The number of decimals the ledger will have.
    pub open spec fn decimals_or_default(&self) -> u8 {
        match self.decimals {
            Some(decimals) => decimals,
            None => DEFAULT_DECIMALS,
        }
    }

    /// The ledger that this configuration describes: each listed account
    /// holds the sum of the amounts listed for it, the supply is the sum of
    /// all listed amounts, and there are no allowances and no reports yet.
    /// Meant for configurations whose amounts add up to a supply in range.
    pub open spec fn ledger(&self) -> LedgerView {
        LedgerView {
            total_supply: self.total() as Balance,
            balances: genesis_balances(self.balances@, self.balances@.len() as int),
            ..LedgerView::named(self.name@, self.sym@, self.decimals_or_default())
        }
    }

    /// The supply that the listed amounts add up to, if a supply can be that large.
    pub fn total_supply(&self) -> (total: Option<Balance>)
        ensures
            total == (if self.total() <= Balance::MAX {
                Some(self.total() as Balance)
            } else {
                None
            }),
    {
        let mut total: Balance = 0;
        let mut i: usize = 0;
        while i < self.balances.len()
            invariant
                i <= self.balances.len(),
                total == entries_total(self.balances@, i as int),
            decreases self.balances.len() - i,
        {
            proof {
                lemma_entries_total_grows(
                    self.balances@,
                    i as int + 1,
                    self.balances@.len() as int,
                );
            }
            total = match total.checked_add(self.balances[i].1) {
                Some(sum) => sum,
                None => { return None; },
            };
            i = i + 1;
        }
        Some(total)
    }

    /// Builds the ledger that this configuration describes.
    ///
    /// The listed amounts must add up to a supply that is in range.
    pub fn build(&self) -> (ledger: Pallet)
        requires
            self.total() <= Balance::MAX,
        ensures
            ledger@ == self.ledger(),
            ledger@.total_supply == self.total(),
            ledger@.conserved(),
    {
        let decimals = match self.decimals {
            Some(decimals) => decimals,
            None => DEFAULT_DECIMALS,
        };
        let mut ledger = Pallet::named(self.name.clone(), self.sym.clone(), decimals);
        proof {
            lemma_sum_of_nothing(account_space());
            assert(genesis_balances(self.balances@, 0) =~= Map::empty());
        }
        let mut i: usize = 0;
        while i < self.balances.len()
            invariant
                i <= self.balances.len(),
                self.total() <= Balance::MAX,
                ledger@ == (LedgerView {
                    total_supply: entries_total(self.balances@, i as int) as Balance,
                    balances: genesis_balances(self.balances@, i as int),
                    ..LedgerView::named(self.name@, self.sym@, self.decimals_or_default())
                }),
                ledger@.total_supply == entries_total(self.balances@, i as int),
                ledger@.conserved(),
            decreases self.balances.len() - i,
        {
            let (who, amount) = self.balances[i];
            proof {
                lemma_entries_total_grows(
                    self.balances@,
                    i as int + 1,
                    self.balances@.len() as int,
                );
                lemma_credit_conserves(ledger@, who, amount);
                lemma_genesis_balances_step(self.balances@, i as int);
            }
            ledger.credit(who, amount);
            i = i + 1;
        }
        ledger
    }

    /// Builds the ledger that this configuration describes, or says why it
    /// cannot: the listed amounts add up to more than a supply can be.
    pub fn build_storage(&self) -> (result: Result<Pallet, String>)
        ensures
            match result {
                Ok(ledger) => {
                    &&& self.total() <= Balance::MAX
                    &&& ledger@ == self.ledger()
                    &&& ledger@.total_supply == self.total()
                    &&& ledger@.conserved()
                },
                Err(message) => self.total() > Balance::MAX && message@
                    == supply_overflow_message(),
            },
    {
        match self.total_supply() {
            Some(_) => Ok(self.build()),
            None => Err("Genesis build failed: Total supply overflow".to_owned()),
        }
    }

    /// Replaces what `storage` holds by the ledger that this configuration
    /// describes. Where the listed amounts add up to more than a supply can
    /// be, says so and leaves `storage` as it is.
    pub fn assimilate_storage(&self, storage: &mut Pallet) -> (result: Result<(), String>)
        ensures
            match result {
                Ok(_) => {
                    &&& self.total() <= Balance::MAX
                    &&& final(storage)@ == self.ledger()
                    &&& final(storage)@.total_supply == self.total()
                    &&& final(storage)@.conserved()
                },
                Err(message) => {
                    &&& self.total() > Balance::MAX
                    &&& message@ == supply_overflow_message()
                    &&& final(storage)@ == old(storage)@
                },
            },
    {
        match self.build_storage() {
            Ok(ledger) => {
                *storage = ledger;
                Ok(())
            },
            Err(message) => Err(message),
        }
    }
}

} // verus!

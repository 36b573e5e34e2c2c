//! The mathematical model of the ledger: its state as maps and sequences,
//! and each operation as a function from one state to the next.

use vstd::prelude::*;
use crate::types::{AccountId, Balance, Error, Event, UNLIMITED_ALLOWANCE, ZERO_ACCOUNT};

verus! {

/// One more than the largest account identifier.
pub open spec fn account_space() -> nat {
    0x1_0000_0000_0000_0000
}

/// The value a store holds under `key`: what was written there, and zero
/// where nothing was.
pub open spec fn stored<K>(store: Map<K, Balance>, key: K) -> Balance {
    if store.contains_key(key) {
        store[key]
    } else {
        0
    }
}

/// The sum of the balances of the accounts whose identifier is below `bound`.
pub open spec fn balance_sum(balances: Map<AccountId, Balance>, bound: nat) -> int
    decreases bound,
{
    if bound == 0 {
        0
    } else {
        balance_sum(balances, (bound - 1) as nat) + stored(balances, (bound - 1) as AccountId)
    }
}

/// The sum of the amounts of the first `upto` entries of a genesis list.
pub open spec fn entries_total(entries: Seq<(AccountId, Balance)>, upto: int) -> int
    decreases upto,
{
    if upto <= 0 {
        0
    } else {
        entries_total(entries, upto - 1) + entries[upto - 1].1
    }
}

/// Whether one of the first `upto` entries of a genesis list names `who`.
pub open spec fn listed(entries: Seq<(AccountId, Balance)>, upto: int, who: AccountId) -> bool {
    exists|i: int| 0 <= i < upto && i < entries.len() && (#[trigger] entries[i]).0 == who
}

/// The sum of the amounts that the first `upto` entries of a genesis list
/// give to `who`.
pub open spec fn entries_share(entries: Seq<(AccountId, Balance)>, upto: int, who: AccountId) -> int
    decreases upto,
{
    if upto <= 0 {
        0
    } else if entries[upto - 1].0 == who {
        entries_share(entries, upto - 1, who) + entries[upto - 1].1
    } else {
        entries_share(entries, upto - 1, who)
    }
}

/// The balances that the first `upto` entries of a genesis list make: each
/// account that they name holds the sum of the amounts listed for it.
pub open spec fn genesis_balances(entries: Seq<(AccountId, Balance)>, upto: int) -> Map<
    AccountId,
    Balance,
> {
    Map::new(
        |who: AccountId| listed(entries, upto, who),
        |who: AccountId| entries_share(entries, upto, who) as Balance,
    )
}

/// The state of a ledger.
pub struct LedgerView {
    /// Tokens in circulation.
    pub total_supply: Balance,
    /// Balance of each account that was ever written; every other account holds zero.
    pub balances: Map<AccountId, Balance>,
    /// Allowance of each (owner, spender) pair that was ever written; every other pair has zero.
    pub allowances: Map<(AccountId, AccountId), Balance>,
    /// Name of the token.
    pub name: Seq<u8>,
    /// Symbol of the token.
    pub symbol: Seq<u8>,
    /// Number of decimals of the token.
    pub decimals: u8,
    /// Reports of the completed operations, oldest first, that nobody has collected yet.
    pub events: Seq<Event>,
}

/// One operation on a ledger together with its arguments.
pub enum Call {
    Transfer { from: AccountId, to: AccountId, amount: Balance },
    Approve { owner: AccountId, spender: AccountId, amount: Balance },
    TransferFrom { spender: AccountId, from: AccountId, to: AccountId, amount: Balance },
    IncreaseAllowance { owner: AccountId, spender: AccountId, added: Balance },
    DecreaseAllowance { owner: AccountId, spender: AccountId, subtracted: Balance },
    SpendAllowance { owner: AccountId, spender: AccountId, amount: Balance },
    Mint { account: AccountId, amount: Balance },
    Burn { account: AccountId, amount: Balance },
}

impl Call {
    /// Whether the call creates or destroys tokens.
    pub open spec fn changes_supply(self) -> bool {
        self is Mint || self is Burn
    }
}

impl LedgerView {
    /// What `who` holds.
    pub open spec fn balance(self, who: AccountId) -> Balance {
        stored(self.balances, who)
    }

    /// How much of `owner`'s tokens `spender` may move.
    pub open spec fn allowance(self, owner: AccountId, spender: AccountId) -> Balance {
        stored(self.allowances, (owner, spender))
    }

    /// The sum of all balances.
    pub open spec fn circulating(self) -> int {
        balance_sum(self.balances, account_space())
    }

    /// The total supply is the sum of all balances.
    pub open spec fn conserved(self) -> bool {
        self.circulating() == self.total_supply
    }

    /// This state with the balance of `who` replaced.
    pub open spec fn with_balance(self, who: AccountId, value: Balance) -> LedgerView {
        LedgerView { balances: self.balances.insert(who, value), ..self }
    }

    /// This state with the allowance of `spender` over `owner`'s tokens replaced.
    pub open spec fn with_allowance(
        self,
        owner: AccountId,
        spender: AccountId,
        value: Balance,
    ) -> LedgerView {
        LedgerView { allowances: self.allowances.insert((owner, spender), value), ..self }
    }

    /// This state with one more report.
    pub open spec fn with_event(self, event: Event) -> LedgerView {
        LedgerView { events: self.events.push(event), ..self }
    }

    /// This state with `amount` new tokens held by `who`. Meant for states in
    /// which neither the balance nor the supply leaves its range.
    pub open spec fn credited(self, who: AccountId, amount: Balance) -> LedgerView {
        LedgerView {
            total_supply: (self.total_supply + amount) as Balance,
            balances: self.balances.insert(who, (self.balance(who) + amount) as Balance),
            ..self
        }
    }

    /// The empty ledger: no tokens, no allowances, no name, no reports.
    pub open spec fn empty(decimals: u8) -> LedgerView {
        LedgerView {
            total_supply: 0,
            balances: Map::empty(),
            allowances: Map::empty(),
            name: Seq::empty(),
            symbol: Seq::empty(),
            decimals,
            events: Seq::empty(),
        }
    }

    /// The empty ledger of a token with the given description.
    pub open spec fn named(name: Seq<u8>, symbol: Seq<u8>, decimals: u8) -> LedgerView {
        LedgerView { name, symbol, ..LedgerView::empty(decimals) }
    }

    /// Moves `amount` from `from` to `to`. The amount is taken off the sender
    /// before it is added to the receiver, so sending to oneself changes no balance.
    pub open spec fn transfer(self, from: AccountId, to: AccountId, amount: Balance) -> Result<
        LedgerView,
        Error,
    > {
        let debited = self.with_balance(from, (self.balance(from) - amount) as Balance);
        if self.balance(from) < amount {
            Err(Error::TransferAmountExceedsBalance)
        } else if debited.balance(to) + amount > Balance::MAX {
            Err(Error::BalanceOverflow)
        } else {
            Ok(
                debited.with_balance(to, (debited.balance(to) + amount) as Balance).with_event(
                    Event::Transfer(from, to, amount),
                ),
            )
        }
    }

    /// Sets the allowance of `spender` over `owner`'s tokens, whatever it was.
    pub open spec fn approve(self, owner: AccountId, spender: AccountId, amount: Balance) -> Result<
        LedgerView,
        Error,
    > {
        Ok(
            self.with_allowance(owner, spender, amount).with_event(
                Event::Approval(owner, spender, amount),
            ),
        )
    }

    /// Raises the allowance of `spender` over `owner`'s tokens by `added`.
    pub open spec fn increase_allowance(
        self,
        owner: AccountId,
        spender: AccountId,
        added: Balance,
    ) -> Result<LedgerView, Error> {
        if self.allowance(owner, spender) + added > Balance::MAX {
            Err(Error::BalanceOverflow)
        } else {
            self.approve(owner, spender, (self.allowance(owner, spender) + added) as Balance)
        }
    }

    /// Lowers the allowance of `spender` over `owner`'s tokens by `subtracted`.
    pub open spec fn decrease_allowance(
        self,
        owner: AccountId,
        spender: AccountId,
        subtracted: Balance,
    ) -> Result<LedgerView, Error> {
        if subtracted > self.allowance(owner, spender) {
            Err(Error::DecreasedAllowanceBelowZero)
        } else {
            self.approve(owner, spender, (self.allowance(owner, spender) - subtracted) as Balance)
        }
    }

    /// Takes `amount` off the allowance of `spender` over `owner`'s tokens,
    /// unless that allowance is unlimited.
    pub open spec fn spend_allowance(
        self,
        owner: AccountId,
        spender: AccountId,
        amount: Balance,
    ) -> Result<LedgerView, Error> {
        if self.allowance(owner, spender) == UNLIMITED_ALLOWANCE {
            Ok(self)
        } else if amount > self.allowance(owner, spender) {
            Err(Error::InsufficientAllowance)
        } else {
            self.approve(owner, spender, (self.allowance(owner, spender) - amount) as Balance)
        }
    }

    /// Lets `spender` move `amount` of `from`'s tokens to `to`: the allowance
    /// is spent first, then the tokens are transferred.
    pub open spec fn transfer_from(
        self,
        spender: AccountId,
        from: AccountId,
        to: AccountId,
        amount: Balance,
    ) -> Result<LedgerView, Error> {
        match self.spend_allowance(from, spender, amount) {
            Ok(spent) => spent.transfer(from, to, amount),
            Err(e) => Err(e),
        }
    }

    /// Creates `amount` tokens for `account`.
    pub open spec fn mint(self, account: AccountId, amount: Balance) -> Result<LedgerView, Error> {
        if self.total_supply + amount > Balance::MAX || self.balance(account) + amount
            > Balance::MAX {
            Err(Error::BalanceOverflow)
        } else {
            Ok(
                self.credited(account, amount).with_event(
                    Event::Transfer(ZERO_ACCOUNT, account, amount),
                ),
            )
        }
    }

    /// Destroys `amount` of the tokens of `account`.
    pub open spec fn burn(self, account: AccountId, amount: Balance) -> Result<LedgerView, Error> {
        if self.balance(account) < amount {
            Err(Error::BurnAmountExceedsBalance)
        } else if self.total_supply < amount {
            Err(Error::BalanceOverflow)
        } else {
            Ok(
                LedgerView {
                    total_supply: (self.total_supply - amount) as Balance,
                    balances: self.balances.insert(
                        account,
                        (self.balance(account) - amount) as Balance,
                    ),
                    ..self
                }.with_event(Event::Transfer(account, ZERO_ACCOUNT, amount)),
            )
        }
    }

    /// What `call` makes of this state.
    pub open spec fn call(self, call: Call) -> Result<LedgerView, Error> {
        match call {
            Call::Transfer { from, to, amount } => self.transfer(from, to, amount),
            Call::Approve { owner, spender, amount } => self.approve(owner, spender, amount),
            Call::TransferFrom { spender, from, to, amount } => self.transfer_from(
                spender,
                from,
                to,
                amount,
            ),
            Call::IncreaseAllowance { owner, spender, added } => self.increase_allowance(
                owner,
                spender,
                added,
            ),
            Call::DecreaseAllowance { owner, spender, subtracted } => self.decrease_allowance(
                owner,
                spender,
                subtracted,
            ),
            Call::SpendAllowance { owner, spender, amount } => self.spend_allowance(
                owner,
                spender,
                amount,
            ),
            Call::Mint { account, amount } => self.mint(account, amount),
            Call::Burn { account, amount } => self.burn(account, amount),
        }
    }

    /// The state that `call` leaves behind: a refused call leaves this one.
    pub open spec fn after(self, call: Call) -> LedgerView {
        match self.call(call) {
            Ok(next) => next,
            Err(_) => self,
        }
    }

    /// The state that a sequence of calls leaves behind, made one after the other.
    pub open spec fn after_all(self, calls: Seq<Call>) -> LedgerView
        decreases calls.len(),
    {
        if calls.len() == 0 {
            self
        } else {
            self.after_all(calls.drop_last()).after(calls.last())
        }
    }

}

} // verus!

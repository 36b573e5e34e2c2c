//! The ledger itself: the stores, and the operations that change them.

use std::collections::HashMap;
use vstd::prelude::*;
use crate::laws::{lemma_burn_conserves, lemma_mint_conserves, lemma_transfer_conserves};
use crate::model::{account_space, LedgerView};
use crate::sums::lemma_sum_of_nothing;
use crate::types::{
    AccountId, Balance, Error, Event, DEFAULT_DECIMALS, UNLIMITED_ALLOWANCE, ZERO_ACCOUNT,
};

verus! {

/// Packs an (owner, spender) pair into the key under which its allowance is kept.
pub closed spec fn pair_key(owner: AccountId, spender: AccountId) -> u128 {
    (owner * 0x1_0000_0000_0000_0000 + spender) as u128
}

/// Different pairs have different keys.
proof fn lemma_pair_key_injective()
    ensures
        forall|o1: AccountId, s1: AccountId, o2: AccountId, s2: AccountId|
            #![trigger pair_key(o1, s1), pair_key(o2, s2)]
            pair_key(o1, s1) == pair_key(o2, s2) ==> o1 == o2 && s1 == s2,
{
}

fn key_of(owner: AccountId, spender: AccountId) -> (key: u128)
    ensures
        key == pair_key(owner, spender),
{
    (owner as u128) * 0x1_0000_0000_0000_0000u128 + (spender as u128)
}

/// A token ledger: who holds how much, who may spend whose tokens, how many
/// tokens exist, and what the token is called.
#[derive(Clone, Debug, PartialEq, Eq)]
pub struct Pallet {
    total_supply: Balance,
    name: Vec<u8>,
    symbol: Vec<u8>,
    decimals: u8,
    balances: HashMap<AccountId, Balance>,
    allowances: HashMap<u128, Balance>,
    events: Vec<Event>,
}

impl View for Pallet {
    type V = LedgerView;

    closed spec fn view(&self) -> LedgerView {
        LedgerView {
            total_supply: self.total_supply,
            balances: self.balances@,
            allowances: Map::new(
                |pair: (AccountId, AccountId)|
                    self.allowances@.contains_key(pair_key(pair.0, pair.1)),
                |pair: (AccountId, AccountId)| self.allowances@[pair_key(pair.0, pair.1)],
            ),
            name: self.name@,
            symbol: self.symbol@,
            decimals: self.decimals,
            events: self.events@,
        }
    }
}

impl Pallet {
    /// A ledger without tokens, allowances, name or reports, with the
    /// default number of decimals.
    pub fn new() -> (ledger: Pallet)
        ensures
            ledger@ == LedgerView::empty(DEFAULT_DECIMALS),
            ledger@.conserved(),
    {
        proof {
            lemma_sum_of_nothing(account_space());
        }
        Pallet::named(Vec::new(), Vec::new(), DEFAULT_DECIMALS)
    }

    /// A ledger without tokens, allowances or reports, of a token with the
    /// given description.
    pub(crate) fn named(name: Vec<u8>, symbol: Vec<u8>, decimals: u8) -> (ledger: Pallet)
        ensures
            ledger@ == LedgerView::named(name@, symbol@, decimals),
    {
        let ledger = Pallet {
            total_supply: 0,
            name,
            symbol,
            decimals,
            balances: HashMap::new(),
            allowances: HashMap::new(),
            events: Vec::new(),
        };
        assert(ledger@.allowances =~= Map::empty());
        ledger
    }

    /// Adds `amount` new tokens to the supply and to the balance of `who`,
    /// and reports nothing.
    pub(crate) fn credit(&mut self, who: AccountId, amount: Balance)
        requires
            old(self)@.total_supply + amount <= Balance::MAX,
            old(self)@.balance(who) + amount <= Balance::MAX,
        ensures
            final(self)@ == old(self)@.credited(who, amount),
    {
        let balance = self.get_balance(who) + amount;
        self.total_supply = self.total_supply + amount;
        self.set_balance(who, balance);
    }

    /// The number of tokens in circulation.
    pub fn get_total_supply(&self) -> (supply: Balance)
        ensures
            supply == self@.total_supply,
    {
        self.total_supply
    }

    /// The name of the token.
    pub fn get_name(&self) -> (name: Vec<u8>)
        ensures
            name@ == self@.name,
    {
        self.name.clone()
    }

    /// The symbol of the token.
    pub fn get_symbol(&self) -> (symbol: Vec<u8>)
        ensures
            symbol@ == self@.symbol,
    {
        self.symbol.clone()
    }

    /// The number of decimals of the token.
    pub fn get_decimals(&self) -> (decimals: u8)
        ensures
            decimals == self@.decimals,
    {
        self.decimals
    }

    /// What `who` holds: zero for an account that never received anything.
    pub fn get_balance(&self, who: AccountId) -> (balance: Balance)
        ensures
            balance == self@.balance(who),
    {
        match self.balances.get(&who) {
            Some(balance) => *balance,
            None => 0,
        }
    }

    /// How much of `owner`'s tokens `spender` may move: zero where no
    /// allowance was ever set.
    pub fn get_allowance(&self, owner: AccountId, spender: AccountId) -> (allowance: Balance)
        ensures
            allowance == self@.allowance(owner, spender),
    {
        let key = key_of(owner, spender);
        match self.allowances.get(&key) {
            Some(allowance) => *allowance,
            None => 0,
        }
    }

    /// The reports that nobody has collected yet, oldest first.
    pub fn events(&self) -> (events: &Vec<Event>)
        ensures
            events@ == self@.events,
    {
        &self.events
    }

    /// Hands out the reports collected so far and forgets them.
    pub fn take_events(&mut self) -> (events: Vec<Event>)
        ensures
            events@ == old(self)@.events,
            final(self)@ == (LedgerView { events: Seq::empty(), ..old(self)@ }),
    {
        let mut events: Vec<Event> = Vec::new();
        std::mem::swap(&mut self.events, &mut events);
        events
    }

    fn set_balance(&mut self, who: AccountId, value: Balance)
        ensures
            final(self)@ == old(self)@.with_balance(who, value),
    {
        self.balances.insert(who, value);
    }

    fn set_allowance(&mut self, owner: AccountId, spender: AccountId, value: Balance)
        ensures
            final(self)@ == old(self)@.with_allowance(owner, spender, value),
    {
        let key = key_of(owner, spender);
        self.allowances.insert(key, value);
        proof {
            lemma_pair_key_injective();
            assert(self@.allowances =~= old(self)@.allowances.insert((owner, spender), value));
        }
    }

    fn deposit_event(&mut self, event: Event)
        ensures
            final(self)@ == old(self)@.with_event(event),
    {
        self.events.push(event);
    }

    /// What a transfer would leave the sender and the receiver with, or why
    /// it would be refused.
    fn transfer_outcome(&self, from: AccountId, to: AccountId, amount: Balance) -> (outcome: Result<
        (Balance, Balance),
        Error,
    >)
        ensures
            match self@.transfer(from, to, amount) {
                Ok(next) => outcome is Ok && next == self@.with_balance(
                    from,
                    outcome.unwrap().0,
                ).with_balance(to, outcome.unwrap().1).with_event(
                    Event::Transfer(from, to, amount),
                ),
                Err(e) => outcome == Err::<(Balance, Balance), Error>(e),
            },
    {
        let from_balance = self.get_balance(from);
        if from_balance < amount {
            return Err(Error::TransferAmountExceedsBalance);
        }
        let debited = match from_balance.checked_sub(amount) {
            Some(rest) => rest,
            None => { return Err(Error::BalanceOverflow); },
        };
        let to_balance = if to == from {
            debited
        } else {
            self.get_balance(to)
        };
        match to_balance.checked_add(amount) {
            Some(credited) => Ok((debited, credited)),
            None => Err(Error::BalanceOverflow),
        }
    }

    /// Writes down a transfer whose outcome was computed before.
    fn settle_transfer(
        &mut self,
        from: AccountId,
        to: AccountId,
        amount: Balance,
        debited: Balance,
        credited: Balance,
    )
        ensures
            final(self)@ == old(self)@.with_balance(from, debited).with_balance(
                to,
                credited,
            ).with_event(Event::Transfer(from, to, amount)),
    {
        self.set_balance(from, debited);
        self.set_balance(to, credited);
        self.deposit_event(Event::Transfer(from, to, amount));
    }

    /// What spending would leave of an allowance (nothing to write down
    /// where the allowance is unlimited), or why it would be refused.
    fn spend_outcome(&self, owner: AccountId, spender: AccountId, amount: Balance) -> (outcome:
        Result<Option<Balance>, Error>)
        ensures
            match self@.spend_allowance(owner, spender, amount) {
                Ok(next) => match outcome {
                    Ok(Some(rest)) => self@.approve(owner, spender, rest) == Ok::<
                        LedgerView,
                        Error,
                    >(next),
                    Ok(None) => next == self@,
                    Err(_) => false,
                },
                Err(e) => outcome == Err::<Option<Balance>, Error>(e),
            },
    {
        let current = self.get_allowance(owner, spender);
        if current == UNLIMITED_ALLOWANCE {
            Ok(None)
        } else {
            match current.checked_sub(amount) {
                Some(rest) => Ok(Some(rest)),
                None => Err(Error::InsufficientAllowance),
            }
        }
    }

    /// Moves `amount` tokens from `from` to `to`.
    ///
    /// Refused, with nothing changed, where `from` holds less than `amount`
    /// or the balance of `to` would leave its range. Sending to oneself is
    /// allowed and changes no balance.
    pub fn _transfer(&mut self, from: AccountId, to: AccountId, amount: Balance) -> (result: Result<
        (),
        Error,
    >)
        ensures
            match old(self)@.transfer(from, to, amount) {
                Ok(next) => result is Ok && final(self)@ == next,
                Err(e) => result == Err::<(), Error>(e) && final(self)@ == old(self)@,
            },
            old(self)@.conserved() ==> final(self)@.conserved(),
    {
        proof {
            lemma_transfer_conserves(self@, from, to, amount);
        }
        match self.transfer_outcome(from, to, amount) {
            Ok((debited, credited)) => {
                self.settle_transfer(from, to, amount, debited, credited);
                Ok(())
            },
            Err(e) => Err(e),
        }
    }

    /// Sets `amount` as the allowance of `spender` over `owner`'s tokens,
    /// whatever it was before. Never refused.
    pub fn _approve(&mut self, owner: AccountId, spender: AccountId, amount: Balance) -> (result:
        Result<(), Error>)
        ensures
            result is Ok,
            old(self)@.approve(owner, spender, amount) == Ok::<LedgerView, Error>(final(self)@),
            old(self)@.conserved() ==> final(self)@.conserved(),
    {
        self.set_allowance(owner, spender, amount);
        self.deposit_event(Event::Approval(owner, spender, amount));
        Ok(())
    }

    /// Takes `amount` off the allowance of `spender` over `owner`'s tokens.
    ///
    /// An unlimited allowance is left as it is. Refused, with nothing
    /// changed, where the allowance is smaller than `amount`.
    pub fn _spend_allowance(
        &mut self,
        owner: AccountId,
        spender: AccountId,
        amount: Balance,
    ) -> (result: Result<(), Error>)
        ensures
            match old(self)@.spend_allowance(owner, spender, amount) {
                Ok(next) => result is Ok && final(self)@ == next,
                Err(e) => result == Err::<(), Error>(e) && final(self)@ == old(self)@,
            },
            old(self)@.conserved() ==> final(self)@.conserved(),
    {
        match self.spend_outcome(owner, spender, amount) {
            Ok(Some(rest)) => self._approve(owner, spender, rest),
            Ok(None) => Ok(()),
            Err(e) => Err(e),
        }
    }

    /// Creates `amount` tokens and gives them to `account`.
    ///
    /// Refused, with nothing changed, where the supply or the balance would
    /// leave its range.
    pub fn _mint(&mut self, account: AccountId, amount: Balance) -> (result: Result<(), Error>)
        ensures
            match old(self)@.mint(account, amount) {
                Ok(next) => result is Ok && final(self)@ == next,
                Err(e) => result == Err::<(), Error>(e) && final(self)@ == old(self)@,
            },
            old(self)@.conserved() ==> final(self)@.conserved(),
    {
        proof {
            lemma_mint_conserves(self@, account, amount);
        }
        if self.total_supply.checked_add(amount).is_none() {
            return Err(Error::BalanceOverflow);
        }
        if self.get_balance(account).checked_add(amount).is_none() {
            return Err(Error::BalanceOverflow);
        }
        self.credit(account, amount);
        self.deposit_event(Event::Transfer(ZERO_ACCOUNT, account, amount));
        Ok(())
    }

    /// Destroys `amount` of the tokens of `account`.
    ///
    /// Refused, with nothing changed, where `account` holds less than
    /// `amount`, or the whole supply is less than `amount`.
    pub fn _burn(&mut self, account: AccountId, amount: Balance) -> (result: Result<(), Error>)
        ensures
            match old(self)@.burn(account, amount) {
                Ok(next) => result is Ok && final(self)@ == next,
                Err(e) => result == Err::<(), Error>(e) && final(self)@ == old(self)@,
            },
            old(self)@.conserved() ==> final(self)@.conserved(),
    {
        proof {
            lemma_burn_conserves(self@, account, amount);
        }
        let current = self.get_balance(account);
        if current < amount {
            return Err(Error::BurnAmountExceedsBalance);
        }
        let supply = match self.total_supply.checked_sub(amount) {
            Some(supply) => supply,
            None => { return Err(Error::BalanceOverflow); },
        };
        let balance = match current.checked_sub(amount) {
            Some(balance) => balance,
            None => { return Err(Error::BalanceOverflow); },
        };
        self.total_supply = supply;
        self.set_balance(account, balance);
        self.deposit_event(Event::Transfer(account, ZERO_ACCOUNT, amount));
        Ok(())
    }

    /// Moves `amount` of the caller's tokens to `to`.
    pub fn transfer(&mut self, origin: AccountId, to: AccountId, amount: Balance) -> (result:
        Result<(), Error>)
        ensures
            match old(self)@.transfer(origin, to, amount) {
                Ok(next) => result is Ok && final(self)@ == next,
                Err(e) => result == Err::<(), Error>(e) && final(self)@ == old(self)@,
            },
            old(self)@.conserved() ==> final(self)@.conserved(),
    {
        self._transfer(origin, to, amount)
    }

    /// Sets `amount` as the allowance of `spender` over the caller's tokens.
    pub fn approve(&mut self, origin: AccountId, spender: AccountId, amount: Balance) -> (result:
        Result<(), Error>)
        ensures
            result is Ok,
            old(self)@.approve(origin, spender, amount) == Ok::<LedgerView, Error>(final(self)@),
            old(self)@.conserved() ==> final(self)@.conserved(),
    {
        self._approve(origin, spender, amount)
    }

    /// Moves `amount` of `from`'s tokens to `to` on the caller's authority:
    /// the amount is taken off the caller's allowance over `from`'s tokens,
    /// then transferred.
    ///
    /// Refused where the allowance does not cover `amount`, and otherwise
    /// where the transfer is refused. A refusal changes nothing: the
    /// allowance is spent only if the transfer takes place.
    pub fn transfer_from(
        &mut self,
        origin: AccountId,
        from: AccountId,
        to: AccountId,
        amount: Balance,
    ) -> (result: Result<(), Error>)
        ensures
            match old(self)@.transfer_from(origin, from, to, amount) {
                Ok(next) => result is Ok && final(self)@ == next,
                Err(e) => result == Err::<(), Error>(e) && final(self)@ == old(self)@,
            },
            old(self)@.conserved() ==> final(self)@.conserved(),
    {
        let rest = match self.spend_outcome(from, origin, amount) {
            Ok(rest) => rest,
            Err(e) => { return Err(e); },
        };
        let (debited, credited) = match self.transfer_outcome(from, to, amount) {
            Ok(balances) => balances,
            Err(e) => { return Err(e); },
        };
        proof {
            lemma_transfer_conserves(
                self@.spend_allowance(from, origin, amount).unwrap(),
                from,
                to,
                amount,
            );
        }
        if let Some(allowance) = rest {
            let _ = self._approve(from, origin, allowance);
        }
        self.settle_transfer(from, to, amount, debited, credited);
        Ok(())
    }

    /// Raises the allowance of `sender` over the caller's tokens by
    /// `added_value`. Refused, with nothing changed, where the allowance
    /// would leave its range.
    pub fn increase_allowance(
        &mut self,
        origin: AccountId,
        sender: AccountId,
        added_value: Balance,
    ) -> (result: Result<(), Error>)
        ensures
            match old(self)@.increase_allowance(origin, sender, added_value) {
                Ok(next) => result is Ok && final(self)@ == next,
                Err(e) => result == Err::<(), Error>(e) && final(self)@ == old(self)@,
            },
            old(self)@.conserved() ==> final(self)@.conserved(),
    {
        match self.get_allowance(origin, sender).checked_add(added_value) {
            Some(amount) => self._approve(origin, sender, amount),
            None => Err(Error::BalanceOverflow),
        }
    }

    /// Lowers the allowance of `sender` over the caller's tokens by
    /// `substracted_value`. Refused, with nothing changed, where the
    /// allowance is smaller than that.
    pub fn decrease_allowance(
        &mut self,
        origin: AccountId,
        sender: AccountId,
        substracted_value: Balance,
    ) -> (result: Result<(), Error>)
        ensures
            match old(self)@.decrease_allowance(origin, sender, substracted_value) {
                Ok(next) => result is Ok && final(self)@ == next,
                Err(e) => result == Err::<(), Error>(e) && final(self)@ == old(self)@,
            },
            old(self)@.conserved() ==> final(self)@.conserved(),
    {
        let current_allowance = self.get_allowance(origin, sender);
        if current_allowance < substracted_value {
            return Err(Error::DecreasedAllowanceBelowZero);
        }
        match current_allowance.checked_sub(substracted_value) {
            Some(amount) => self._approve(origin, sender, amount),
            None => Err(Error::BalanceOverflow),
        }
    }
}

} // verus!

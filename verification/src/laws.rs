//! What holds of the ledger's operations, whatever state they start from.

use vstd::prelude::*;
use crate::model::{account_space, Call, LedgerView};
use crate::sums::{lemma_sum_after_write, lemma_two_balances_within_sum};
use crate::types::{AccountId, Balance, Error, UNLIMITED_ALLOWANCE};

verus! {

/// A transfer moves tokens and makes none: the supply and the sum of all
/// balances are what they were. Where the supply equals that sum, no
/// transfer can push a balance out of range.
pub proof fn lemma_transfer_conserves(
    state: LedgerView,
    from: AccountId,
    to: AccountId,
    amount: Balance,
)
    ensures
        state.transfer(from, to, amount) matches Ok(next) ==> {
            &&& next.total_supply == state.total_supply
            &&& next.circulating() == state.circulating()
            &&& next.allowances == state.allowances
        },
        state.conserved() ==> state.transfer(from, to, amount) != Err::<LedgerView, Error>(
            Error::BalanceOverflow,
        ),
{
    let debited = state.with_balance(from, (state.balance(from) - amount) as Balance);
    if state.balance(from) >= amount {
        lemma_sum_after_write(
            state.balances,
            from,
            (state.balance(from) - amount) as Balance,
            account_space(),
        );
        lemma_sum_after_write(
            debited.balances,
            to,
            (debited.balance(to) + amount) as Balance,
            account_space(),
        );
        if from != to {
            lemma_two_balances_within_sum(state.balances, from, to);
        }
    }
}

/// Minting adds the same amount to the supply and to the sum of all balances.
pub proof fn lemma_mint_conserves(state: LedgerView, account: AccountId, amount: Balance)
    ensures
        state.mint(account, amount) matches Ok(next) ==> {
            &&& next.total_supply == state.total_supply + amount
            &&& next.circulating() == state.circulating() + amount
        },
{
    lemma_sum_after_write(
        state.balances,
        account,
        (state.balance(account) + amount) as Balance,
        account_space(),
    );
}

/// Burning takes the same amount off the supply and off the sum of all balances.
pub proof fn lemma_burn_conserves(state: LedgerView, account: AccountId, amount: Balance)
    ensures
        state.burn(account, amount) matches Ok(next) ==> {
            &&& next.total_supply == state.total_supply - amount
            &&& next.circulating() == state.circulating() - amount
        },
{
    lemma_sum_after_write(
        state.balances,
        account,
        (state.balance(account) - amount) as Balance,
        account_space(),
    );
}

/// No call, granted or refused, separates the supply from the sum of all
/// balances; and a call that neither mints nor burns changes neither.
pub proof fn lemma_call_conserves(state: LedgerView, call: Call)
    ensures
        state.conserved() ==> state.after(call).conserved(),
        !call.changes_supply() ==> {
            &&& state.after(call).total_supply == state.total_supply
            &&& state.after(call).circulating() == state.circulating()
        },
{
    match call {
        Call::Transfer { from, to, amount } => {
            lemma_transfer_conserves(state, from, to, amount);
        },
        Call::TransferFrom { spender, from, to, amount } => {
            if let Ok(spent) = state.spend_allowance(from, spender, amount) {
                lemma_transfer_conserves(spent, from, to, amount);
            }
        },
        Call::Mint { account, amount } => {
            lemma_mint_conserves(state, account, amount);
        },
        Call::Burn { account, amount } => {
            lemma_burn_conserves(state, account, amount);
        },
        _ => {},
    }
}

/// Conservation: after any sequence of calls on a ledger whose supply
/// equals the sum of its balances, the supply still equals that sum.
pub proof fn lemma_conservation(state: LedgerView, calls: Seq<Call>)
    requires
        state.conserved(),
    ensures
        state.after_all(calls).conserved(),
    decreases calls.len(),
{
    if calls.len() > 0 {
        lemma_conservation(state, calls.drop_last());
        lemma_call_conserves(state.after_all(calls.drop_last()), calls.last());
    }
}

/// A sequence of calls none of which mints or burns, such as transfers in
/// one's own name or another's, leaves the supply and the sum of all
/// balances as they were.
pub proof fn lemma_transfers_keep_supply(state: LedgerView, calls: Seq<Call>)
    requires
        forall|i: int| 0 <= i < calls.len() ==> !(#[trigger] calls[i]).changes_supply(),
    ensures
        state.after_all(calls).total_supply == state.total_supply,
        state.after_all(calls).circulating() == state.circulating(),
    decreases calls.len(),
{
    if calls.len() > 0 {
        lemma_transfers_keep_supply(state, calls.drop_last());
        lemma_call_conserves(state.after_all(calls.drop_last()), calls.last());
    }
}

/// Minting an amount and then burning it from the same account always
/// succeeds, and gives back the balance of every account, the supply and
/// every allowance.
pub proof fn lemma_mint_then_burn(state: LedgerView, account: AccountId, amount: Balance)
    requires
        state.mint(account, amount) is Ok,
    ensures
        state.mint(account, amount).unwrap().burn(account, amount) is Ok,
        ({
            let back = state.mint(account, amount).unwrap().burn(account, amount).unwrap();
            &&& back.total_supply == state.total_supply
            &&& forall|who: AccountId| back.balance(who) == state.balance(who)
            &&& back.allowances == state.allowances
            &&& back.conserved() == state.conserved()
        }),
{
    let minted = state.mint(account, amount).unwrap();
    lemma_mint_conserves(state, account, amount);
    lemma_burn_conserves(minted, account, amount);
}

/// The calls that spend `amounts`, in turn, of `spender`'s allowance over
/// `owner`'s tokens.
pub open spec fn spends(owner: AccountId, spender: AccountId, amounts: Seq<Balance>) -> Seq<Call> {
    Seq::new(amounts.len(), |i: int| Call::SpendAllowance { owner, spender, amount: amounts[i] })
}

/// An unlimited allowance is never used up: however often and however much
/// is spent of it, the ledger stays exactly as it was.
pub proof fn lemma_unlimited_allowance_stays(
    state: LedgerView,
    owner: AccountId,
    spender: AccountId,
    amounts: Seq<Balance>,
)
    requires
        state.allowance(owner, spender) == UNLIMITED_ALLOWANCE,
    ensures
        state.after_all(spends(owner, spender, amounts)) == state,
    decreases amounts.len(),
{
    if amounts.len() > 0 {
        lemma_unlimited_allowance_stays(state, owner, spender, amounts.drop_last());
        assert(spends(owner, spender, amounts).drop_last() =~= spends(
            owner,
            spender,
            amounts.drop_last(),
        ));
    }
}

/// Approving twice leaves the second allowance, whatever the first was.
pub proof fn lemma_approve_overwrites(
    state: LedgerView,
    owner: AccountId,
    spender: AccountId,
    first: Balance,
    second: Balance,
)
    ensures
        state.approve(owner, spender, first) is Ok,
        state.approve(owner, spender, first).unwrap().approve(owner, spender, second) is Ok,
        state.approve(owner, spender, first).unwrap().approve(
            owner,
            spender,
            second,
        ).unwrap().allowance(owner, spender) == second,
        state.approve(owner, spender, first).unwrap().approve(
            owner,
            spender,
            second,
        ).unwrap().allowances == state.approve(owner, spender, second).unwrap().allowances,
{
    assert(state.allowances.insert((owner, spender), first).insert((owner, spender), second)
        =~= state.allowances.insert((owner, spender), second));
}

} // verus!

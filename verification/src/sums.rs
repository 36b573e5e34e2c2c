//! How the sum of all balances follows a change of one balance.

use vstd::prelude::*;
use crate::model::{
    account_space, balance_sum, entries_share, entries_total, genesis_balances, listed, stored,
    LedgerView,
};
use crate::types::{AccountId, Balance};

verus! {

/// Nothing is held where no balance was written.
pub proof fn lemma_sum_of_nothing(bound: nat)
    ensures
        balance_sum(Map::empty(), bound) == 0,
    decreases bound,
{
    if bound > 0 {
        lemma_sum_of_nothing((bound - 1) as nat);
    }
}

/// Replacing one balance changes the sum by the difference between the new
/// value and the old one, once the account is within the bound.
pub proof fn lemma_sum_after_write(
    balances: Map<AccountId, Balance>,
    who: AccountId,
    value: Balance,
    bound: nat,
)
    requires
        bound <= account_space(),
    ensures
        balance_sum(balances.insert(who, value), bound) == balance_sum(balances, bound) + (if who
            < bound {
            value - stored(balances, who)
        } else {
            0
        }),
    decreases bound,
{
    if bound > 0 {
        lemma_sum_after_write(balances, who, value, (bound - 1) as nat);
    }
}

/// No sum is negative, and a sum over more accounts is no smaller.
pub proof fn lemma_sum_grows(balances: Map<AccountId, Balance>, low: nat, high: nat)
    requires
        low <= high,
    ensures
        0 <= balance_sum(balances, low) <= balance_sum(balances, high),
    decreases high,
{
    if low < high {
        lemma_sum_grows(balances, low, (high - 1) as nat);
    } else if low > 0 {
        lemma_sum_grows(balances, (low - 1) as nat, (low - 1) as nat);
    }
}

/// No account holds more than all accounts together.
pub proof fn lemma_balance_within_sum(balances: Map<AccountId, Balance>, who: AccountId)
    ensures
        stored(balances, who) <= balance_sum(balances, account_space()),
{
    lemma_sum_grows(balances, 0, who as nat);
    lemma_sum_grows(balances, (who + 1) as nat, account_space());
}

/// Two different accounts together hold no more than all accounts together.
pub proof fn lemma_two_balances_within_sum(
    balances: Map<AccountId, Balance>,
    one: AccountId,
    other: AccountId,
)
    requires
        one != other,
    ensures
        stored(balances, one) + stored(balances, other) <= balance_sum(balances, account_space()),
{
    let without = balances.insert(one, 0);
    lemma_sum_after_write(balances, one, 0, account_space());
    lemma_balance_within_sum(without, other);
}

/// The amounts of a genesis list add up entry by entry, and never go down.
pub proof fn lemma_entries_total_grows(entries: Seq<(AccountId, Balance)>, low: int, high: int)
    requires
        low <= high,
    ensures
        0 <= entries_total(entries, low) <= entries_total(entries, high),
    decreases high - low, high,
{
    if low < high {
        lemma_entries_total_grows(entries, low, high - 1);
    } else if low > 0 {
        lemma_entries_total_grows(entries, low - 1, low - 1);
    }
}

/// An account gets nothing from entries that do not name it, and never
/// more than all entries give together.
pub proof fn lemma_share_within_total(
    entries: Seq<(AccountId, Balance)>,
    upto: int,
    who: AccountId,
)
    requires
        upto <= entries.len(),
    ensures
        0 <= entries_share(entries, upto, who) <= entries_total(entries, upto),
        !listed(entries, upto, who) ==> entries_share(entries, upto, who) == 0,
    decreases upto,
{
    if upto > 0 {
        lemma_share_within_total(entries, upto - 1, who);
        if !listed(entries, upto, who) {
            assert(entries[upto - 1].0 != who);
            assert(!listed(entries, upto - 1, who));
        }
    }
}

/// One more entry of a genesis list changes the balance of the account it
/// names, by its amount, and no other.
pub proof fn lemma_genesis_balances_step(entries: Seq<(AccountId, Balance)>, upto: int)
    requires
        0 <= upto < entries.len(),
        entries_total(entries, upto + 1) <= Balance::MAX,
    ensures
        genesis_balances(entries, upto + 1) == genesis_balances(entries, upto).insert(
            entries[upto].0,
            (stored(genesis_balances(entries, upto), entries[upto].0) + entries[upto].1) as Balance,
        ),
{
    let who = entries[upto].0;
    let before = genesis_balances(entries, upto);
    let after = genesis_balances(entries, upto + 1);
    let written = before.insert(who, (stored(before, who) + entries[upto].1) as Balance);
    lemma_share_within_total(entries, upto, who);
    lemma_share_within_total(entries, upto + 1, who);
    assert forall|k: AccountId| after.contains_key(k) <==> written.contains_key(k) by {
        if listed(entries, upto + 1, k) {
            let i = choose|i: int|
                0 <= i < upto + 1 && i < entries.len() && (#[trigger] entries[i]).0 == k;
            if i < upto {
                assert(listed(entries, upto, k));
            }
        }
        if listed(entries, upto, k) {
            let i = choose|i: int|
                0 <= i < upto && i < entries.len() && (#[trigger] entries[i]).0 == k;
            assert(0 <= i < upto + 1 && entries[i].0 == k);
        }
        assert(entries[upto].0 == who);
    }
    assert(after =~= written);
}

/// Where no account is listed twice, each listed account holds the amount
/// listed for it.
pub proof fn lemma_genesis_balance_of_listed(entries: Seq<(AccountId, Balance)>, i: int)
    requires
        0 <= i < entries.len(),
        forall|j: int, k: int|
            0 <= j < k < entries.len() ==> (#[trigger] entries[j]).0 != (#[trigger] entries[k]).0,
    ensures
        stored(genesis_balances(entries, entries.len() as int), entries[i].0) == entries[i].1,
{
    assert(listed(entries, entries.len() as int, entries[i].0));
    lemma_share_of_listed_once(entries, entries.len() as int, i);
}

/// Where no account is listed twice, the share of a listed account is the
/// amount of its entry, once that entry is counted.
proof fn lemma_share_of_listed_once(entries: Seq<(AccountId, Balance)>, upto: int, i: int)
    requires
        0 <= i < entries.len(),
        0 <= upto <= entries.len(),
        forall|j: int, k: int|
            0 <= j < k < entries.len() ==> (#[trigger] entries[j]).0 != (#[trigger] entries[k]).0,
    ensures
        entries_share(entries, upto, entries[i].0) == (if i < upto {
            entries[i].1 as int
        } else {
            0
        }),
    decreases upto,
{
    if upto > 0 {
        lemma_share_of_listed_once(entries, upto - 1, i);
        if upto - 1 != i {
            assert(entries[upto - 1].0 != entries[i].0);
        }
    }
}

/// Crediting new tokens keeps the supply equal to the sum of the balances,
/// as long as the supply stays in range.
pub proof fn lemma_credit_conserves(state: LedgerView, who: AccountId, amount: Balance)
    requires
        state.conserved(),
        state.total_supply + amount <= Balance::MAX,
    ensures
        state.balance(who) + amount <= Balance::MAX,
        state.credited(who, amount).conserved(),
        state.credited(who, amount).total_supply == state.total_supply + amount,
        state.credited(who, amount).balance(who) == state.balance(who) + amount,
{
    lemma_balance_within_sum(state.balances, who);
    lemma_sum_after_write(
        state.balances,
        who,
        (state.balance(who) + amount) as Balance,
        account_space(),
    );
}

} // verus!

//! The public balance store: one balance per (asset, account) pair, kept as
//! an append-only journal in which the latest entry for a pair wins. An
//! absent pair holds balance zero; a zero balance and a non-existent
//! account are identified.

use vstd::prelude::*;

use crate::config::AccountId;
use crate::config::AssetId;
use crate::config::Balance;

verus! {

/// One journal entry: the balance a pair was set to at some point of the
/// store's history.
#[derive(Clone, Copy, Debug)]
pub struct BalanceEntry {
    pub asset: AssetId,
    pub account: AccountId,
    pub value: Balance,
}

/// The balance the journal currently assigns to `(asset, account)`: the
/// value of the latest matching entry, or zero while none matches.
pub open spec fn journal_balance(s: Seq<BalanceEntry>, asset: AssetId, account: AccountId) -> Balance
    decreases s.len(),
{
    if s.len() == 0 {
        0
    } else if s.last().asset == asset && s.last().account == account {
        s.last().value
    } else {
        journal_balance(s.drop_last(), asset, account)
    }
}

/// Public balances of every asset for every account.
pub struct BalanceStore {
    entries: Vec<BalanceEntry>,
}

impl BalanceStore {
    /// The balance currently held by `account` in `asset`.
    pub closed spec fn balance_of(self, asset: AssetId, account: AccountId) -> Balance {
        journal_balance(self.entries@, asset, account)
    }

    pub fn new() -> (r: Self)
        ensures
            forall|a: AssetId, c: AccountId| #[trigger] r.balance_of(a, c) == 0,
    {
        BalanceStore { entries: Vec::new() }
    }

    /// The balance currently held by `account` in `asset`.
    pub fn get(&self, asset: AssetId, account: AccountId) -> (r: Balance)
        ensures
            r == self.balance_of(asset, account),
    {
        let n = self.entries.len();
        let mut k = n;
        proof {
            assert(self.entries@.take(n as int) =~= self.entries@);
        }
        while k > 0
            invariant
                k <= n,
                n == self.entries@.len(),
                journal_balance(self.entries@, asset, account) == journal_balance(
                    self.entries@.take(k as int),
                    asset,
                    account,
                ),
            decreases k,
        {
            k = k - 1;
            let t = Ghost(self.entries@.take(k as int + 1));
            proof {
                assert(t@.last() == self.entries@[k as int]);
            }
            if self.entries[k].asset == asset && self.entries[k].account == account {
                proof {
                    assert(journal_balance(t@, asset, account) == t@.last().value);
                }
                return self.entries[k].value;
            }
            proof {
                assert(t@.drop_last() =~= self.entries@.take(k as int));
                assert(journal_balance(t@, asset, account) == journal_balance(
                    t@.drop_last(),
                    asset,
                    account,
                ));
            }
        }
        proof {
            assert(self.entries@.take(0) =~= Seq::<BalanceEntry>::empty());
        }
        0
    }

    /// Sets the pair's balance to `value`. Every other pair is untouched.
    pub fn set(&mut self, asset: AssetId, account: AccountId, value: Balance)
        ensures
            final(self).balance_of(asset, account) == value,
            forall|a: AssetId, c: AccountId|
                !(a == asset && c == account) ==> #[trigger] final(self).balance_of(a, c) == old(
                    self,
                ).balance_of(a, c),
    {
        self.entries.push(BalanceEntry { asset, account, value });
        proof {
            assert(self.entries@.drop_last() =~= old(self).entries@);
            assert forall|a: AssetId, c: AccountId| !(a == asset && c == account) implies #[trigger] self.balance_of(a, c) == old(self).balance_of(a, c) by {
                assert(journal_balance(self.entries@, a, c) == journal_balance(
                    self.entries@.drop_last(),
                    a,
                    c,
                ));
            }
        }
    }
}

} // verus!

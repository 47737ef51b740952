//! The native-asset ledger that the privileged transfer draws on.
//!
//! Holds the balance of each endowed account and moves value between
//! accounts with all-or-nothing semantics: a transfer either debits the
//! source and credits the recipient in one step, or fails and changes no
//! balance at all. An account without an entry holds a balance of zero, and a
//! source account may be fully depleted.

use vstd::prelude::*;

use crate::errors::Error;
use crate::kv::{
    assoc_map, lemma_assoc_map_contains, lemma_assoc_map_push, lemma_assoc_map_update,
    lemma_assoc_map_value, unique_keys,
};
use vstd::pervasive::VecAdditionalExecFns;

verus! {

/// The balance an account holds under a balance map: zero when no entry
/// exists for it.
pub open spec fn spec_balance(m: Map<u64, u64>, account: u64) -> u64 {
    if m.contains_key(account) {
        m[account]
    } else {
        0
    }
}

/// Account balances, one entry per endowed account.
pub struct Ledger {
    balances: Vec<(u64, u64)>,
}

impl View for Ledger {
    type V = Map<u64, u64>;

    closed spec fn view(&self) -> Map<u64, u64> {
        assoc_map(self.balances@)
    }
}

impl Ledger {
    /// No account is listed twice.
    pub closed spec fn wf(&self) -> bool {
        unique_keys(self.balances@)
    }

    /// An empty ledger: every account holds zero.
    pub fn new() -> (l: Ledger)
        ensures
            l.wf(),
            l@ == Map::<u64, u64>::empty(),
    {
        let l = Ledger { balances: Vec::new() };
        proof {
            assert(l.balances@ =~= Seq::<(u64, u64)>::empty());
        }
        l
    }

    /// The index of the entry for `account`, if one exists.
    fn find(&self, account: u64) -> (r: Option<usize>)
        ensures
            match r {
                Some(i) => i < self.balances@.len() && self.balances@[i as int].0 == account,
                None => forall|j: int| 0 <= j < self.balances@.len() ==> self.balances@[j].0
                    != account,
            },
    {
        let mut i: usize = 0;
        while i < self.balances.len()
            invariant
                i <= self.balances.len(),
                forall|j: int| 0 <= j < i ==> self.balances@[j].0 != account,
            decreases self.balances.len() - i,
        {
            if self.balances[i].0 == account {
                return Some(i);
            }
            i += 1;
        }
        None
    }

    /// The balance `account` holds.
    pub fn balance_of(&self, account: u64) -> (r: u64)
        requires
            self.wf(),
        ensures
            r == spec_balance(self@, account),
    {
        proof {
            lemma_assoc_map_contains(self.balances@, account);
        }
        match self.find(account) {
            Some(i) => {
                proof {
                    lemma_assoc_map_value(self.balances@, i as int);
                }
                self.balances[i].1
            },
            None => 0,
        }
    }

    /// Writes `amount` as the balance of `account`, replacing any earlier
    /// entry.
    fn set_balance(&mut self, account: u64, amount: u64)
        requires
            old(self).wf(),
        ensures
            final(self).wf(),
            final(self)@ == old(self)@.insert(account, amount),
    {
        let ghost old_entries = self.balances@;
        match self.find(account) {
            Some(i) => {
                self.balances.set(i, (account, amount));
                proof {
                    assert(self.balances@ =~= old_entries.update(i as int, (account, amount)));
                    lemma_assoc_map_update(old_entries, i as int, amount);
                }
            },
            None => {
                self.balances.push((account, amount));
                proof {
                    lemma_assoc_map_push(old_entries, account, amount);
                }
            },
        }
    }

    /// Endows `account` with `amount` at genesis, replacing any earlier
    /// balance.
    pub fn endow(&mut self, account: u64, amount: u64)
        requires
            old(self).wf(),
        ensures
            final(self).wf(),
            final(self)@ == old(self)@.insert(account, amount),
    {
        self.set_balance(account, amount);
    }

    /// Moves `amount` from `from` to `to`. Fails with `InsufficientFunds`
    /// when `from` holds less than `amount`, and with `BalanceOverflow` when
    /// crediting `to` would not fit its balance; either failure leaves every
    /// balance unchanged. On success `from` may be fully depleted.
    pub fn transfer(&mut self, from: u64, to: u64, amount: u64) -> (r: Result<(), Error>)
        requires
            old(self).wf(),
        ensures
            final(self).wf(),
            spec_balance(old(self)@, from) < amount ==> r == Err::<(), Error>(
                Error::InsufficientFunds,
            ) && final(self)@ == old(self)@,
            spec_balance(old(self)@, from) >= amount && from != to && spec_balance(old(self)@, to)
                + amount > u64::MAX ==> r == Err::<(), Error>(Error::BalanceOverflow)
                && final(self)@ == old(self)@,
            spec_balance(old(self)@, from) >= amount && (from == to || spec_balance(old(self)@, to)
                + amount <= u64::MAX) ==> r == Ok::<(), Error>(()) && (forall|a: u64|
                spec_balance(final(self)@, a) == (if a == from && a != to {
                    (spec_balance(old(self)@, from) - amount) as u64
                } else if a == to && a != from {
                    (spec_balance(old(self)@, to) + amount) as u64
                } else {
                    spec_balance(old(self)@, a)
                })),
    {
        let from_balance = self.balance_of(from);
        if from_balance < amount {
            return Err(Error::InsufficientFunds);
        }
        if from == to {
            return Ok(());
        }
        let to_balance = self.balance_of(to);
        if to_balance > u64::MAX - amount {
            return Err(Error::BalanceOverflow);
        }
        self.set_balance(from, from_balance - amount);
        self.set_balance(to, to_balance + amount);
        Ok(())
    }
}

} // verus!

use vstd::prelude::*;

verus! {

/// The balance held by `account` in a list of `(account, balance)` entries:
/// the balance of the last entry for that account, or zero when none exists.
spec fn balance_in(entries: Seq<(u64, u64)>, account: u64) -> int
    decreases entries.len(),
{
    if entries.len() == 0 {
        0
    } else if entries.last().0 == account {
        entries.last().1 as int
    } else {
        balance_in(entries.drop_last(), account)
    }
}

/// The sum of every balance in a list of `(account, balance)` entries.
spec fn total_in(entries: Seq<(u64, u64)>) -> int
    decreases entries.len(),
{
    if entries.len() == 0 {
        0
    } else {
        total_in(entries.drop_last()) + entries.last().1
    }
}

/// No account appears twice.
spec fn accounts_unique(entries: Seq<(u64, u64)>) -> bool {
    forall|i: int, j: int|
        0 <= i < j < entries.len() ==> (#[trigger] entries[i]).0 != (#[trigger] entries[j]).0
}

proof fn lemma_total_nonneg(entries: Seq<(u64, u64)>)
    ensures
        total_in(entries) >= 0,
    decreases entries.len(),
{
    if entries.len() > 0 {
        lemma_total_nonneg(entries.drop_last());
    }
}

proof fn lemma_balance_nonneg(entries: Seq<(u64, u64)>, account: u64)
    ensures
        balance_in(entries, account) >= 0,
    decreases entries.len(),
{
    if entries.len() > 0 {
        lemma_balance_nonneg(entries.drop_last(), account);
    }
}

/// With unique accounts, the entry at index `i` gives its account's balance.
proof fn lemma_balance_at_index(entries: Seq<(u64, u64)>, i: int)
    requires
        accounts_unique(entries),
        0 <= i < entries.len(),
    ensures
        balance_in(entries, entries[i].0) == entries[i].1,
    decreases entries.len(),
{
    if i < entries.len() - 1 {
        assert(entries.drop_last()[i] == entries[i]);
        lemma_balance_at_index(entries.drop_last(), i);
    }
}

/// An account that appears in no entry has a zero balance.
proof fn lemma_balance_absent(entries: Seq<(u64, u64)>, account: u64)
    requires
        forall|i: int| 0 <= i < entries.len() ==> (#[trigger] entries[i]).0 != account,
    ensures
        balance_in(entries, account) == 0,
    decreases entries.len(),
{
    if entries.len() > 0 {
        assert(forall|i: int|
            0 <= i < entries.drop_last().len() ==> #[trigger] entries.drop_last()[i] == entries[i]);
        lemma_balance_absent(entries.drop_last(), account);
    }
}

/// Replacing the balance at index `i` (keeping its account) adjusts only
/// that account's balance, and the total by the difference.
proof fn lemma_update_balance(entries: Seq<(u64, u64)>, i: int, value: u64)
    requires
        accounts_unique(entries),
        0 <= i < entries.len(),
    ensures
        accounts_unique(entries.update(i, (entries[i].0, value))),
        total_in(entries.update(i, (entries[i].0, value)))
            == total_in(entries) - entries[i].1 + value,
        balance_in(entries.update(i, (entries[i].0, value)), entries[i].0) == value,
        forall|a: u64| a != entries[i].0
            ==> balance_in(entries.update(i, (entries[i].0, value)), a)
                == #[trigger] balance_in(entries, a),
    decreases entries.len(),
{
    let updated = entries.update(i, (entries[i].0, value));
    assert forall|p: int, q: int| 0 <= p < q < updated.len() implies
        (#[trigger] updated[p]).0 != (#[trigger] updated[q]).0 by {
        assert(entries[p].0 != entries[q].0);
    }
    if i == entries.len() - 1 {
        assert(updated.drop_last() =~= entries.drop_last());
        assert forall|a: u64| a != entries[i].0
            implies balance_in(updated, a) == balance_in(entries, a) by {
            assert(balance_in(updated, a) == balance_in(updated.drop_last(), a));
            assert(balance_in(entries, a) == balance_in(entries.drop_last(), a));
        }
    } else {
        assert(updated.drop_last() =~= entries.drop_last().update(i, (entries[i].0, value)));
        assert(entries.drop_last()[i] == entries[i]);
        lemma_update_balance(entries.drop_last(), i, value);
        assert(updated.last() == entries.last());
        // the last entry's account differs from the updated account
        assert(entries[i].0 != entries.last().0);
        assert forall|a: u64| a != entries[i].0
            implies balance_in(updated, a) == balance_in(entries, a) by {
            if a != entries.last().0 {
                assert(balance_in(updated, a) == balance_in(updated.drop_last(), a));
                assert(balance_in(entries, a) == balance_in(entries.drop_last(), a));
                assert(balance_in(entries.drop_last().update(i, (entries[i].0, value)), a)
                    == balance_in(entries.drop_last(), a));
            }
        }
    }
}

/// With unique accounts, one balance never exceeds the total.
proof fn lemma_balance_le_total(entries: Seq<(u64, u64)>, account: u64)
    requires
        accounts_unique(entries),
    ensures
        balance_in(entries, account) <= total_in(entries),
    decreases entries.len(),
{
    if entries.len() > 0 {
        lemma_balance_le_total(entries.drop_last(), account);
        lemma_balance_nonneg(entries.drop_last(), account);
        lemma_total_nonneg(entries.drop_last());
        if entries.last().0 == account {
            assert(forall|i: int|
                0 <= i < entries.drop_last().len()
                    ==> (#[trigger] entries.drop_last()[i]).0 != account);
            lemma_balance_absent(entries.drop_last(), account);
        }
    }
}

/// With unique accounts, two distinct accounts' balances never exceed the
/// total together.
proof fn lemma_two_balances_le_total(entries: Seq<(u64, u64)>, a: u64, b: u64)
    requires
        accounts_unique(entries),
        a != b,
    ensures
        balance_in(entries, a) + balance_in(entries, b) <= total_in(entries),
    decreases entries.len(),
{
    if entries.len() == 0 {
    } else {
        lemma_two_balances_le_total(entries.drop_last(), a, b);
        if entries.last().0 == a {
            assert(forall|i: int|
                0 <= i < entries.drop_last().len()
                    ==> (#[trigger] entries.drop_last()[i]).0 != a);
            lemma_balance_absent(entries.drop_last(), a);
            lemma_balance_le_total(entries.drop_last(), b);
        } else if entries.last().0 == b {
            assert(forall|i: int|
                0 <= i < entries.drop_last().len()
                    ==> (#[trigger] entries.drop_last()[i]).0 != b);
            lemma_balance_absent(entries.drop_last(), b);
            lemma_balance_le_total(entries.drop_last(), a);
        }
    }
}

/// The ledger platform's native-currency accounts, as the engine sees them:
/// a finite map from account identity to balance. The platform keeps the
/// total supply within `u64`, so no credit can overflow.
pub struct Bank {
    entries: Vec<(u64, u64)>,
}

impl Bank {
    /// The balance of `account`; zero for an account never seen.
    pub closed spec fn spec_balance(self, account: u64) -> int {
        balance_in(self.entries@, account)
    }

    /// The sum of all balances.
    pub closed spec fn spec_total(self) -> int {
        total_in(self.entries@)
    }

    /// Each account appears once and the total supply fits in `u64`.
    pub closed spec fn wf(self) -> bool {
        &&& accounts_unique(self.entries@)
        &&& total_in(self.entries@) <= u64::MAX
    }

    /// Every balance is between zero and the total.
    pub proof fn lemma_balance_bounds(self, account: u64)
        requires
            self.wf(),
        ensures
            0 <= self.spec_balance(account) <= self.spec_total() <= u64::MAX,
            self.spec_total() >= 0,
    {
        lemma_balance_nonneg(self.entries@, account);
        lemma_balance_le_total(self.entries@, account);
        lemma_total_nonneg(self.entries@);
    }

    /// An empty ledger: every balance is zero.
    pub fn new() -> (r: Bank)
        ensures
            r.wf(),
            forall|a: u64| r.spec_balance(a) == 0,
            r.spec_total() == 0,
    {
        let bank = Bank { entries: Vec::new() };
        proof {
            assert forall|a: u64| bank.spec_balance(a) == 0 by {
                lemma_balance_absent(bank.entries@, a);
            }
        }
        bank
    }

    /// The index holding `account`, if any.
    fn find(&self, account: u64) -> (r: Option<usize>)
        ensures
            match r {
                Some(i) => i < self.entries@.len() && self.entries@[i as int].0 == account,
                None => forall|i: int|
                    0 <= i < self.entries@.len() ==> (#[trigger] self.entries@[i]).0 != account,
            },
    {
        let mut i: usize = 0;
        while i < self.entries.len()
            invariant
                i <= self.entries@.len(),
                forall|j: int| 0 <= j < i ==> (#[trigger] self.entries@[j]).0 != account,
            decreases self.entries@.len() - i,
        {
            if self.entries[i].0 == account {
                return Some(i);
            }
            i = i + 1;
        }
        None
    }

    pub fn balance_of(&self, account: u64) -> (r: u64)
        requires
            self.wf(),
        ensures
            r == self.spec_balance(account),
    {
        match self.find(account) {
            Some(i) => {
                proof {
                    lemma_balance_at_index(self.entries@, i as int);
                }
                self.entries[i].1
            }
            None => {
                proof {
                    lemma_balance_absent(self.entries@, account);
                }
                0
            }
        }
    }

    /// Adds `amount` to `account`, leaving every other balance alone.
    fn credit(&mut self, account: u64, amount: u64)
        requires
            old(self).wf(),
            old(self).spec_total() + amount <= u64::MAX,
        ensures
            final(self).wf(),
            final(self).spec_balance(account) == old(self).spec_balance(account) + amount,
            forall|a: u64| a != account
                ==> final(self).spec_balance(a) == old(self).spec_balance(a),
            final(self).spec_total() == old(self).spec_total() + amount,
    {
        proof {
            lemma_total_nonneg(self.entries@);
        }
        match self.find(account) {
            Some(i) => {
                proof {
                    lemma_balance_at_index(self.entries@, i as int);
                    lemma_balance_le_total(self.entries@, account);
                    lemma_update_balance(self.entries@, i as int, (self.entries@[i as int].1 + amount) as u64);
                }
                let held = self.entries[i].1;
                let slot = &mut self.entries[i];
                *slot = (account, held + amount);
            }
            None => {
                proof {
                    lemma_balance_absent(self.entries@, account);
                    let pushed = self.entries@.push((account, amount));
                    assert(pushed.drop_last() =~= self.entries@);
                    assert forall|a: u64| a != account
                        implies balance_in(pushed, a) == balance_in(self.entries@, a) by {}
                }
                self.entries.push((account, amount));
            }
        }
    }

    /// Removes `amount` from `account`, leaving every other balance alone.
    fn debit(&mut self, account: u64, amount: u64)
        requires
            old(self).wf(),
            old(self).spec_balance(account) >= amount,
        ensures
            final(self).wf(),
            final(self).spec_balance(account) == old(self).spec_balance(account) - amount,
            forall|a: u64| a != account
                ==> final(self).spec_balance(a) == old(self).spec_balance(a),
            final(self).spec_total() == old(self).spec_total() - amount,
    {
        match self.find(account) {
            Some(i) => {
                proof {
                    lemma_balance_at_index(self.entries@, i as int);
                    lemma_total_nonneg(self.entries@);
                    lemma_balance_le_total(self.entries@, account);
                    lemma_update_balance(self.entries@, i as int, (self.entries@[i as int].1 - amount) as u64);
                }
                let held = self.entries[i].1;
                let slot = &mut self.entries[i];
                *slot = (account, held - amount);
            }
            None => {
                proof {
                    lemma_balance_absent(self.entries@, account);
                }
                // a balance of zero admits only a zero debit, which changes nothing
            }
        }
    }

    /// Brings `amount` of native currency into the modelled accounts from
    /// outside the protocol (the platform minted it or it arrived from an
    /// account the engine never touches).
    pub fn deposit(&mut self, account: u64, amount: u64)
        requires
            old(self).wf(),
            old(self).spec_total() + amount <= u64::MAX,
        ensures
            final(self).wf(),
            final(self).spec_balance(account) == old(self).spec_balance(account) + amount,
            forall|a: u64| a != account
                ==> final(self).spec_balance(a) == old(self).spec_balance(a),
            final(self).spec_total() == old(self).spec_total() + amount,
    {
        self.credit(account, amount);
    }

    /// The platform's atomic value transfer: moves `amount` between two
    /// distinct accounts, conserving the total.
    pub fn transfer(&mut self, from: u64, to: u64, amount: u64)
        requires
            old(self).wf(),
            from != to,
            old(self).spec_balance(from) >= amount,
        ensures
            final(self).wf(),
            final(self).spec_balance(from) == old(self).spec_balance(from) - amount,
            final(self).spec_balance(to) == old(self).spec_balance(to) + amount,
            forall|a: u64| a != from && a != to
                ==> final(self).spec_balance(a) == old(self).spec_balance(a),
            final(self).spec_total() == old(self).spec_total(),
    {
        proof {
            lemma_two_balances_le_total(self.entries@, from, to);
            lemma_balance_nonneg(self.entries@, to);
        }
        self.debit(from, amount);
        self.credit(to, amount);
    }
}

} // verus!

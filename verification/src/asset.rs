//! A model of the external fungible-asset collaborator.
//!
//! The relay never keeps books of its own: balances live with the asset
//! contract and are queried live. This module models that collaborator as a
//! ledger of non-negative balances with a bounded total supply, so that the
//! relay's operations can state exactly how each call moves value. The
//! collaborator enforces its own solvency rule: a movement that the source
//! balance does not cover is refused and changes nothing.

use vstd::prelude::*;
use crate::Identity;

verus! {

/// The sum of the amounts of a ledger's account entries.
pub open spec fn sum_amounts(s: Seq<(Identity, i128)>) -> int
    decreases s.len(),
{
    if s.len() == 0 {
        0
    } else {
        sum_amounts(s.drop_last()) + s.last().1
    }
}

/// The balance a ledger records for `who`: the amount of the entry holding
/// `who`, or zero when no entry does.
pub open spec fn seq_balance(s: Seq<(Identity, i128)>, who: Identity) -> int
    decreases s.len(),
{
    if s.len() == 0 {
        0
    } else if s.last().0 == who {
        s.last().1 as int
    } else {
        seq_balance(s.drop_last(), who)
    }
}

/// No two entries name the same account.
pub open spec fn keys_unique(s: Seq<(Identity, i128)>) -> bool {
    forall|i: int, j: int| 0 <= i < j < s.len() ==> s[i].0 != s[j].0
}

/// Every entry's amount is non-negative.
pub open spec fn all_nonneg(s: Seq<(Identity, i128)>) -> bool {
    forall|i: int| 0 <= i < s.len() ==> s[i].1 >= 0
}

proof fn lemma_drop_last_props(s: Seq<(Identity, i128)>)
    requires
        s.len() > 0,
    ensures
        all_nonneg(s) ==> all_nonneg(s.drop_last()),
        keys_unique(s) ==> keys_unique(s.drop_last()),
{
    if all_nonneg(s) {
        assert forall|i: int| 0 <= i < s.drop_last().len() implies s.drop_last()[i].1 >= 0 by {
            assert(s.drop_last()[i] == s[i]);
        }
    }
    if keys_unique(s) {
        assert forall|i: int, j: int| 0 <= i < j < s.drop_last().len() implies s.drop_last()[i].0
            != s.drop_last()[j].0 by {
            assert(s.drop_last()[i] == s[i]);
            assert(s.drop_last()[j] == s[j]);
        }
    }
}

proof fn lemma_sum_nonneg(s: Seq<(Identity, i128)>)
    requires
        all_nonneg(s),
    ensures
        sum_amounts(s) >= 0,
    decreases s.len(),
{
    if s.len() > 0 {
        lemma_drop_last_props(s);
        lemma_sum_nonneg(s.drop_last());
    }
}

proof fn lemma_entry_le_sum(s: Seq<(Identity, i128)>, i: int)
    requires
        all_nonneg(s),
        0 <= i < s.len(),
    ensures
        s[i].1 <= sum_amounts(s),
    decreases s.len(),
{
    lemma_drop_last_props(s);
    if i == s.len() - 1 {
        lemma_sum_nonneg(s.drop_last());
    } else {
        lemma_entry_le_sum(s.drop_last(), i);
        assert(s.drop_last()[i] == s[i]);
    }
}

proof fn lemma_balance_le_sum(s: Seq<(Identity, i128)>, who: Identity)
    requires
        all_nonneg(s),
    ensures
        0 <= seq_balance(s, who),
        seq_balance(s, who) <= sum_amounts(s),
    decreases s.len(),
{
    if s.len() > 0 {
        lemma_drop_last_props(s);
        if s.last().0 == who {
            lemma_sum_nonneg(s.drop_last());
        } else {
            lemma_balance_le_sum(s.drop_last(), who);
        }
    }
}

proof fn lemma_balance_found(s: Seq<(Identity, i128)>, who: Identity, i: int)
    requires
        keys_unique(s),
        0 <= i < s.len(),
        s[i].0 == who,
    ensures
        seq_balance(s, who) == s[i].1,
    decreases s.len(),
{
    if i < s.len() - 1 {
        assert(s.last().0 != who);
        lemma_drop_last_props(s);
        assert(s.drop_last()[i] == s[i]);
        lemma_balance_found(s.drop_last(), who, i);
    }
}

proof fn lemma_balance_absent(s: Seq<(Identity, i128)>, who: Identity)
    requires
        forall|j: int| 0 <= j < s.len() ==> s[j].0 != who,
    ensures
        seq_balance(s, who) == 0,
    decreases s.len(),
{
    if s.len() > 0 {
        assert forall|j: int| 0 <= j < s.drop_last().len() implies s.drop_last()[j].0 != who by {
            assert(s.drop_last()[j] == s[j]);
        }
        lemma_balance_absent(s.drop_last(), who);
    }
}

proof fn lemma_sum_update(s: Seq<(Identity, i128)>, i: int, v: (Identity, i128))
    requires
        0 <= i < s.len(),
    ensures
        sum_amounts(s.update(i, v)) == sum_amounts(s) - s[i].1 + v.1,
    decreases s.len(),
{
    let t = s.update(i, v);
    if i == s.len() - 1 {
        assert(t.drop_last() =~= s.drop_last());
        assert(t.last() == v);
    } else {
        assert(t.drop_last() =~= s.drop_last().update(i, v));
        assert(s.drop_last()[i] == s[i]);
        lemma_sum_update(s.drop_last(), i, v);
        assert(t.last() == s.last());
    }
}

proof fn lemma_sum_push(s: Seq<(Identity, i128)>, v: (Identity, i128))
    ensures
        sum_amounts(s.push(v)) == sum_amounts(s) + v.1,
{
    assert(s.push(v).drop_last() =~= s);
    assert(s.push(v).last() == v);
}

proof fn lemma_unique_update_same_key(s: Seq<(Identity, i128)>, i: int, v: (Identity, i128))
    requires
        keys_unique(s),
        0 <= i < s.len(),
        v.0 == s[i].0,
    ensures
        keys_unique(s.update(i, v)),
{
    let t = s.update(i, v);
    assert forall|a: int, b: int| 0 <= a < b < t.len() implies t[a].0 != t[b].0 by {
        assert(t[a].0 == s[a].0);
        assert(t[b].0 == s[b].0);
    }
}

proof fn lemma_balance_update_same_key(
    s: Seq<(Identity, i128)>,
    i: int,
    v: (Identity, i128),
    w: Identity,
)
    requires
        keys_unique(s),
        0 <= i < s.len(),
        v.0 == s[i].0,
        w != v.0,
    ensures
        seq_balance(s.update(i, v), w) == seq_balance(s, w),
{
    let t = s.update(i, v);
    lemma_unique_update_same_key(s, i, v);
    if exists|j: int| 0 <= j < s.len() && s[j].0 == w {
        let j = choose|j: int| 0 <= j < s.len() && s[j].0 == w;
        assert(j != i);
        assert(t[j] == s[j]);
        lemma_balance_found(s, w, j);
        lemma_balance_found(t, w, j);
    } else {
        lemma_balance_absent(s, w);
        assert forall|j: int| 0 <= j < t.len() implies t[j].0 != w by {
            if j != i {
                assert(t[j] == s[j]);
            }
        }
        lemma_balance_absent(t, w);
    }
}

/// The fungible-asset ledger: one entry per account that ever received
/// value, plus the cached total supply.
pub struct Asset {
    accounts: Vec<(Identity, i128)>,
    total: i128,
}

impl Asset {
    /// The live balance of `who`.
    pub closed spec fn balance_of(self, who: Identity) -> int {
        seq_balance(self.accounts@, who)
    }

    /// The total of all balances.
    pub closed spec fn total_supply(self) -> int {
        self.total as int
    }

    /// Ledger well-formedness: accounts are unique, balances are
    /// non-negative, and the cached total is the sum of all balances (so the
    /// total, and with it every balance, fits in an `i128`).
    pub closed spec fn well_formed(self) -> bool {
        &&& keys_unique(self.accounts@)
        &&& all_nonneg(self.accounts@)
        &&& self.total == sum_amounts(self.accounts@)
    }

    /// Every balance of a well-formed ledger lies between zero and the total
    /// supply.
    pub proof fn lemma_balance_in_range(self, who: Identity)
        requires
            self.well_formed(),
        ensures
            0 <= self.balance_of(who),
            self.balance_of(who) <= self.total_supply(),
    {
        lemma_balance_le_sum(self.accounts@, who);
    }

    /// An empty ledger: every balance is zero.
    pub fn new() -> (a: Asset)
        ensures
            a.well_formed(),
            a.total_supply() == 0,
            forall|w: Identity| a.balance_of(w) == 0,
    {
        let a = Asset { accounts: Vec::new(), total: 0 };
        proof {
            assert forall|w: Identity| a.balance_of(w) == 0 by {
                assert(a.accounts@.len() == 0);
            }
        }
        a
    }

    fn find_index(&self, who: Identity) -> (r: Option<usize>)
        ensures
            match r {
                Some(i) => i < self.accounts@.len() && self.accounts@[i as int].0 == who,
                None => forall|j: int| 0 <= j < self.accounts@.len() ==> self.accounts@[j].0 != who,
            },
    {
        let mut i: usize = 0;
        while i < self.accounts.len()
            invariant
                i <= self.accounts.len(),
                forall|j: int| 0 <= j < i ==> self.accounts@[j].0 != who,
            decreases self.accounts.len() - i,
        {
            if self.accounts[i].0 == who {
                return Some(i);
            }
            i = i + 1;
        }
        None
    }

    /// The live balance of `who`, as the collaborator reports it.
    pub fn balance(&self, who: Identity) -> (r: i128)
        requires
            self.well_formed(),
        ensures
            r == self.balance_of(who),
            r >= 0,
    {
        match self.find_index(who) {
            Some(i) => {
                proof {
                    lemma_balance_found(self.accounts@, who, i as int);
                }
                self.accounts[i].1
            },
            None => {
                proof {
                    lemma_balance_absent(self.accounts@, who);
                }
                0
            },
        }
    }

    fn credit(&mut self, to: Identity, amount: i128)
        requires
            old(self).well_formed(),
            0 <= amount,
            old(self).total_supply() + amount <= i128::MAX,
        ensures
            final(self).well_formed(),
            final(self).total_supply() == old(self).total_supply() + amount,
            final(self).balance_of(to) == old(self).balance_of(to) + amount,
            forall|w: Identity|
                w != to ==> final(self).balance_of(w) == old(self).balance_of(w),
    {
        let ghost s = self.accounts@;
        match self.find_index(to) {
            Some(i) => {
                let cur: i128 = self.accounts[i].1;
                proof {
                    lemma_entry_le_sum(s, i as int);
                    lemma_balance_found(s, to, i as int);
                }
                let updated: i128 = cur + amount;
                self.accounts.set(i, (to, updated));
                self.total = self.total + amount;
                proof {
                    lemma_sum_update(s, i as int, (to, updated));
                    lemma_unique_update_same_key(s, i as int, (to, updated));
                    assert forall|k: int| 0 <= k < self.accounts@.len() implies self.accounts@[k].1
                        >= 0 by {
                        if k != i as int {
                            assert(self.accounts@[k] == s[k]);
                        }
                    }
                    lemma_balance_found(self.accounts@, to, i as int);
                    assert forall|w: Identity| w != to implies seq_balance(self.accounts@, w)
                        == seq_balance(s, w) by {
                        lemma_balance_update_same_key(s, i as int, (to, updated), w);
                    }
                }
            },
            None => {
                proof {
                    lemma_balance_absent(s, to);
                }
                self.accounts.push((to, amount));
                self.total = self.total + amount;
                proof {
                    let t = self.accounts@;
                    lemma_sum_push(s, (to, amount));
                    assert(t.last() == (to, amount));
                    assert(t.drop_last() =~= s);
                    assert forall|a: int, b: int| 0 <= a < b < t.len() implies t[a].0 != t[b].0 by {
                        assert(t[a] == s[a]);
                        if b < s.len() {
                            assert(t[b] == s[b]);
                        }
                    }
                    assert forall|k: int| 0 <= k < t.len() implies t[k].1 >= 0 by {
                        if k < s.len() {
                            assert(t[k] == s[k]);
                        }
                    }
                    assert(seq_balance(t, to) == amount);
                    assert forall|w: Identity| w != to implies seq_balance(t, w) == seq_balance(
                        s,
                        w,
                    ) by {
                        assert(t.last().0 == to);
                    }
                }
            },
        }
    }

    fn debit(&mut self, from: Identity, amount: i128)
        requires
            old(self).well_formed(),
            0 <= amount,
            amount <= old(self).balance_of(from),
        ensures
            final(self).well_formed(),
            final(self).total_supply() == old(self).total_supply() - amount,
            final(self).balance_of(from) == old(self).balance_of(from) - amount,
            forall|w: Identity|
                w != from ==> final(self).balance_of(w) == old(self).balance_of(w),
    {
        let ghost s = self.accounts@;
        match self.find_index(from) {
            Some(i) => {
                let cur: i128 = self.accounts[i].1;
                proof {
                    lemma_entry_le_sum(s, i as int);
                    lemma_balance_found(s, from, i as int);
                }
                let updated: i128 = cur - amount;
                self.accounts.set(i, (from, updated));
                self.total = self.total - amount;
                proof {
                    lemma_sum_update(s, i as int, (from, updated));
                    lemma_unique_update_same_key(s, i as int, (from, updated));
                    assert forall|k: int| 0 <= k < self.accounts@.len() implies self.accounts@[k].1
                        >= 0 by {
                        if k != i as int {
                            assert(self.accounts@[k] == s[k]);
                        }
                    }
                    lemma_balance_found(self.accounts@, from, i as int);
                    assert forall|w: Identity| w != from implies seq_balance(self.accounts@, w)
                        == seq_balance(s, w) by {
                        lemma_balance_update_same_key(s, i as int, (from, updated), w);
                    }
                }
            },
            None => {
                proof {
                    lemma_balance_absent(s, from);
                }
            },
        }
    }

    /// Put new value into circulation on `to`'s account. Succeeds exactly
    /// when the amount is non-negative and the enlarged total supply still
    /// fits; on failure the ledger is unchanged.
    pub fn mint(&mut self, to: Identity, amount: i128) -> (r: bool)
        requires
            old(self).well_formed(),
        ensures
            final(self).well_formed(),
            r == (0 <= amount && old(self).total_supply() + amount <= i128::MAX),
            r ==> final(self).total_supply() == old(self).total_supply() + amount
                && final(self).balance_of(to) == old(self).balance_of(to) + amount
                && (forall|w: Identity|
                    w != to ==> final(self).balance_of(w) == old(self).balance_of(w)),
            !r ==> *final(self) == *old(self),
    {
        if amount < 0 {
            return false;
        }
        proof {
            lemma_sum_nonneg(self.accounts@);
        }
        if amount > i128::MAX - self.total {
            return false;
        }
        self.credit(to, amount);
        true
    }

    /// The collaborator's value-movement primitive. It enforces its own
    /// solvency rule: the movement happens exactly when the amount is
    /// non-negative and `from`'s balance covers it; otherwise nothing
    /// changes. A movement from an account to itself changes nothing.
    pub fn transfer(&mut self, from: Identity, to: Identity, amount: i128) -> (r: bool)
        requires
            old(self).well_formed(),
        ensures
            final(self).well_formed(),
            r == (0 <= amount && amount <= old(self).balance_of(from)),
            final(self).total_supply() == old(self).total_supply(),
            !r ==> *final(self) == *old(self),
            (r && from == to) ==> *final(self) == *old(self),
            (r && from != to) ==> final(self).balance_of(from) == old(self).balance_of(from)
                - amount && final(self).balance_of(to) == old(self).balance_of(to) + amount && (
            forall|w: Identity|
                w != from && w != to ==> final(self).balance_of(w) == old(self).balance_of(w)),
    {
        if amount < 0 {
            return false;
        }
        let bal = self.balance(from);
        if bal < amount {
            return false;
        }
        if from == to {
            return true;
        }
        self.debit(from, amount);
        self.credit(to, amount);
        true
    }
}

} // verus!

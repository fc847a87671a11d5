//! The ledger's storage: typed tables in which a missing key reads as zero.
use vstd::prelude::*;

verus! {

/// Sum of the amounts held in a list of `(account, amount)` entries.
pub open spec fn sum_amounts(s: Seq<(u64, u64)>) -> int
    decreases s.len(),
{
    if s.len() == 0 {
        0
    } else {
        sum_amounts(s.drop_last()) + s.last().1
    }
}

proof fn lemma_sum_update(s: Seq<(u64, u64)>, i: int, e: (u64, u64))
    requires
        0 <= i < s.len(),
    ensures
        sum_amounts(s.update(i, e)) == sum_amounts(s) - s[i].1 + e.1,
    decreases s.len(),
{
    let t = s.update(i, e);
    if i == s.len() - 1 {
        assert(t.drop_last() =~= s.drop_last());
    } else {
        lemma_sum_update(s.drop_last(), i, e);
        assert(t.drop_last() =~= s.drop_last().update(i, e));
    }
}

proof fn lemma_sum_push(s: Seq<(u64, u64)>, e: (u64, u64))
    ensures
        sum_amounts(s.push(e)) == sum_amounts(s) + e.1,
{
    assert(s.push(e).drop_last() =~= s);
}

proof fn lemma_entry_le_sum(s: Seq<(u64, u64)>, i: int)
    requires
        0 <= i < s.len(),
    ensures
        s[i].1 <= sum_amounts(s),
    decreases s.len(),
{
    lemma_sum_nonneg(s.drop_last());
    if i < s.len() - 1 {
        lemma_entry_le_sum(s.drop_last(), i);
        assert(s.drop_last()[i] == s[i]);
    }
}

proof fn lemma_sum_nonneg(s: Seq<(u64, u64)>)
    ensures
        sum_amounts(s) >= 0,
    decreases s.len(),
{
    if s.len() > 0 {
        lemma_sum_nonneg(s.drop_last());
    }
}

/// Amounts keyed by account; each account has at most one entry.
pub struct BalanceTable {
    entries: Vec<(u64, u64)>,
}

impl BalanceTable {
    /// No account has two entries.
    pub closed spec fn wf(&self) -> bool {
        forall|i: int, j: int|
            0 <= i < j < self.entries@.len() ==> #[trigger] self.entries@[i].0
                != #[trigger] self.entries@[j].0
    }

    /// The amount held by `k`: its entry's amount, or zero where it has none.
    pub closed spec fn amount(&self, k: u64) -> u64 {
        if exists|i: int| 0 <= i < self.entries@.len() && self.entries@[i].0 == k {
            self.entries@[choose|i: int| 0 <= i < self.entries@.len() && self.entries@[i].0 == k].1
        } else {
            0
        }
    }

    /// The sum of every account's amount.
    pub closed spec fn total(&self) -> int {
        sum_amounts(self.entries@)
    }

    pub fn new() -> (r: BalanceTable)
        ensures
            r.wf(),
            r.total() == 0,
            forall|k: u64| r.amount(k) == 0,
    {
        BalanceTable { entries: Vec::new() }
    }

    proof fn lemma_amount_at(&self, i: int)
        requires
            self.wf(),
            0 <= i < self.entries@.len(),
        ensures
            self.amount(self.entries@[i].0) == self.entries@[i].1,
    {
        let k = self.entries@[i].0;
        assert(0 <= i < self.entries@.len() && self.entries@[i].0 == k);
        let j = choose|j: int| 0 <= j < self.entries@.len() && self.entries@[j].0 == k;
        if j < i {
            assert(self.entries@[j].0 != self.entries@[i].0);
        } else if i < j {
            assert(self.entries@[i].0 != self.entries@[j].0);
        }
    }

    /// No account holds more than the sum of all amounts.
    pub proof fn lemma_amount_le_total(&self, k: u64)
        requires
            self.wf(),
        ensures
            self.amount(k) <= self.total(),
    {
        lemma_sum_nonneg(self.entries@);
        if exists|i: int| 0 <= i < self.entries@.len() && self.entries@[i].0 == k {
            let i = choose|i: int| 0 <= i < self.entries@.len() && self.entries@[i].0 == k;
            lemma_entry_le_sum(self.entries@, i);
        }
    }

    fn find(&self, k: u64) -> (r: Option<usize>)
        requires
            self.wf(),
        ensures
            match r {
                Some(i) => i < self.entries@.len() && self.entries@[i as int].0 == k,
                None => forall|i: int| 0 <= i < self.entries@.len() ==> self.entries@[i].0 != k,
            },
    {
        let mut i: usize = 0;
        while i < self.entries.len()
            invariant
                i <= self.entries@.len(),
                forall|j: int| 0 <= j < i ==> self.entries@[j].0 != k,
            decreases self.entries@.len() - i,
        {
            if self.entries[i].0 == k {
                return Some(i);
            }
            i = i + 1;
        }
        None
    }

    /// The amount held by `k`, zero where it has none.
    pub fn get(&self, k: u64) -> (r: u64)
        requires
            self.wf(),
        ensures
            r == self.amount(k),
    {
        match self.find(k) {
            Some(i) => {
                proof {
                    self.lemma_amount_at(i as int);
                }
                self.entries[i].1
            },
            None => 0,
        }
    }

    /// Sets the amount held by `k` to `v`, leaving every other account's as it was.
    pub fn set(&mut self, k: u64, v: u64)
        requires
            old(self).wf(),
        ensures
            final(self).wf(),
            final(self).amount(k) == v,
            forall|j: u64| j != k ==> final(self).amount(j) == old(self).amount(j),
            final(self).total() == old(self).total() - old(self).amount(k) + v,
    {
        match self.find(k) {
            Some(i) => {
                proof {
                    self.lemma_amount_at(i as int);
                    lemma_sum_update(self.entries@, i as int, (k, v));
                }
                let ghost before = *self;
                self.entries.set(i, (k, v));
                assert forall|j: u64| j != k implies self.amount(j) == before.amount(j) by {
                    if exists|m: int| 0 <= m < self.entries@.len() && self.entries@[m].0 == j {
                        let m = choose|m: int| 0 <= m < self.entries@.len() && self.entries@[m].0 == j;
                        self.lemma_amount_at(m);
                        before.lemma_amount_at(m);
                    } else {
                        assert forall|m: int| 0 <= m < before.entries@.len() implies before.entries@[m].0 != j by {
                            if m != i {
                                assert(self.entries@[m] == before.entries@[m]);
                            }
                        }
                    }
                }
                proof {
                    self.lemma_amount_at(i as int);
                }
            },
            None => {
                proof {
                    lemma_sum_push(self.entries@, (k, v));
                }
                let ghost before = *self;
                self.entries.push((k, v));
                let ghost n = before.entries@.len() as int;
                assert forall|j: u64| j != k implies self.amount(j) == before.amount(j) by {
                    if exists|m: int| 0 <= m < before.entries@.len() && before.entries@[m].0 == j {
                        let m = choose|m: int| 0 <= m < before.entries@.len() && before.entries@[m].0 == j;
                        self.lemma_amount_at(m);
                        before.lemma_amount_at(m);
                    } else {
                        assert forall|m: int| 0 <= m < self.entries@.len() implies self.entries@[m].0 != j by {
                            if m < n {
                                assert(self.entries@[m] == before.entries@[m]);
                            }
                        }
                    }
                }
                proof {
                    self.lemma_amount_at(n);
                }
            },
        }
    }
}

/// Amounts keyed by an (owner, spender) pair; each pair has at most one entry.
pub struct AllowanceTable {
    entries: Vec<(u64, u64, u64)>,
}

impl AllowanceTable {
    /// No pair has two entries.
    pub closed spec fn wf(&self) -> bool {
        forall|i: int, j: int|
            0 <= i < j < self.entries@.len() ==> {
                let a = #[trigger] self.entries@[i];
                let b = #[trigger] self.entries@[j];
                a.0 != b.0 || a.1 != b.1
            }
    }

    spec fn holds_at(&self, i: int, o: u64, s: u64) -> bool {
        0 <= i < self.entries@.len() && self.entries@[i].0 == o && self.entries@[i].1 == s
    }

    /// The amount that `s` may move out of `o`'s balance; zero where the pair has no entry.
    pub closed spec fn amount(&self, o: u64, s: u64) -> u64 {
        if exists|i: int| self.holds_at(i, o, s) {
            self.entries@[choose|i: int| self.holds_at(i, o, s)].2
        } else {
            0
        }
    }

    pub fn new() -> (r: AllowanceTable)
        ensures
            r.wf(),
            forall|o: u64, s: u64| r.amount(o, s) == 0,
    {
        AllowanceTable { entries: Vec::new() }
    }

    proof fn lemma_amount_at(&self, i: int)
        requires
            self.wf(),
            0 <= i < self.entries@.len(),
        ensures
            self.amount(self.entries@[i].0, self.entries@[i].1) == self.entries@[i].2,
    {
        let (o, s) = (self.entries@[i].0, self.entries@[i].1);
        assert(self.holds_at(i, o, s));
        let j = choose|j: int| self.holds_at(j, o, s);
        if j < i {
            assert(self.entries@[j].0 != self.entries@[i].0 || self.entries@[j].1 != self.entries@[i].1);
        } else if i < j {
            assert(self.entries@[i].0 != self.entries@[j].0 || self.entries@[i].1 != self.entries@[j].1);
        }
    }

    fn find(&self, o: u64, s: u64) -> (r: Option<usize>)
        requires
            self.wf(),
        ensures
            match r {
                Some(i) => self.holds_at(i as int, o, s),
                None => forall|i: int| !self.holds_at(i, o, s),
            },
    {
        let mut i: usize = 0;
        while i < self.entries.len()
            invariant
                i <= self.entries@.len(),
                forall|j: int| 0 <= j < i ==> !self.holds_at(j, o, s),
            decreases self.entries@.len() - i,
        {
            if self.entries[i].0 == o && self.entries[i].1 == s {
                return Some(i);
            }
            i = i + 1;
        }
        None
    }

    /// The allowance of `s` over `o`'s balance, zero where none was set.
    pub fn get(&self, o: u64, s: u64) -> (r: u64)
        requires
            self.wf(),
        ensures
            r == self.amount(o, s),
    {
        match self.find(o, s) {
            Some(i) => {
                proof {
                    self.lemma_amount_at(i as int);
                }
                self.entries[i].2
            },
            None => 0,
        }
    }

    /// Sets the allowance of `s` over `o`'s balance to `v`, leaving every other pair's as it was.
    pub fn set(&mut self, o: u64, s: u64, v: u64)
        requires
            old(self).wf(),
        ensures
            final(self).wf(),
            final(self).amount(o, s) == v,
            forall|p: u64, q: u64| (p != o || q != s) ==> final(self).amount(p, q) == old(self).amount(p, q),
    {
        let ghost before = *self;
        let ghost n = before.entries@.len() as int;
        let found = self.find(o, s);
        match found {
            Some(i) => {
                self.entries.set(i, (o, s, v));
            },
            None => {
                self.entries.push((o, s, v));
            },
        }
        let ghost at: int = match found { Some(i) => i as int, None => n };
        assert(self.wf()) by {
            assert forall|i: int, j: int| 0 <= i < j < self.entries@.len() implies {
                let a = #[trigger] self.entries@[i];
                let b = #[trigger] self.entries@[j];
                a.0 != b.0 || a.1 != b.1
            } by {
                if i != at {
                    assert(self.entries@[i] == before.entries@[i]);
                }
                if j != at {
                    assert(self.entries@[j] == before.entries@[j]);
                }
                if i != at && j != at {
                    assert(before.entries@[i].0 != before.entries@[j].0 || before.entries@[i].1 != before.entries@[j].1);
                } else if i == at {
                    assert(!before.holds_at(j, o, s) || at < n);
                    if at < n {
                        assert(before.entries@[i].0 != before.entries@[j].0 || before.entries@[i].1 != before.entries@[j].1);
                    }
                } else {
                    if at < n {
                        assert(before.entries@[i].0 != before.entries@[j].0 || before.entries@[i].1 != before.entries@[j].1);
                    } else {
                        assert(!before.holds_at(i, o, s));
                    }
                }
            }
        }
        assert forall|p: u64, q: u64| (p != o || q != s) implies self.amount(p, q) == before.amount(p, q) by {
            if exists|m: int| before.holds_at(m, p, q) {
                let m = choose|m: int| before.holds_at(m, p, q);
                self.lemma_amount_at(m);
                before.lemma_amount_at(m);
            } else {
                assert forall|m: int| !self.holds_at(m, p, q) by {
                    if 0 <= m < n && m != at {
                        assert(self.entries@[m] == before.entries@[m]);
                        assert(!before.holds_at(m, p, q));
                    }
                }
            }
        }
        proof {
            self.lemma_amount_at(at);
        }
    }
}

/// The accounts allowed to create new supply.
pub struct MinterSet {
    members: Vec<u64>,
}

impl MinterSet {
    /// Whether `a` is a minter.
    pub closed spec fn has(&self, a: u64) -> bool {
        self.members@.contains(a)
    }

    /// The set holding exactly the accounts of `accounts`.
    pub fn from_accounts(accounts: &Vec<u64>) -> (r: MinterSet)
        ensures
            forall|a: u64| r.has(a) <==> accounts@.contains(a),
    {
        MinterSet { members: accounts.clone() }
    }

    /// Whether `a` is a minter.
    pub fn contains(&self, a: u64) -> (r: bool)
        ensures
            r == self.has(a),
    {
        let mut i: usize = 0;
        while i < self.members.len()
            invariant
                i <= self.members@.len(),
                forall|j: int| 0 <= j < i ==> self.members@[j] != a,
            decreases self.members@.len() - i,
        {
            if self.members[i] == a {
                return true;
            }
            i = i + 1;
        }
        false
    }
}

} // verus!

//! The native ledger of a wrapped fungible asset: balances by account and the total supply.
use crate::address::AccountId;
use vstd::prelude::*;

verus! {

/// The balance that a list of entries gives an account: its last entry, or zero.
pub open spec fn balance_in(s: Seq<(AccountId, u128)>, a: AccountId) -> nat
    decreases s.len(),
{
    if s.len() == 0 {
        0
    } else if s.last().0 == a {
        s.last().1 as nat
    } else {
        balance_in(s.drop_last(), a)
    }
}

/// The sum of the amounts of a list of entries.
pub open spec fn sum_of(s: Seq<(AccountId, u128)>) -> nat
    decreases s.len(),
{
    if s.len() == 0 {
        0
    } else {
        sum_of(s.drop_last()) + s.last().1 as nat
    }
}

/// No account has two entries.
pub open spec fn keys_unique(s: Seq<(AccountId, u128)>) -> bool {
    forall|i: int, j: int| 0 <= i < j < s.len() ==> s[i].0 != s[j].0
}

proof fn lemma_balance_at(s: Seq<(AccountId, u128)>, i: int)
    requires
        keys_unique(s),
        0 <= i < s.len(),
    ensures
        balance_in(s, s[i].0) == s[i].1 as nat,
    decreases s.len(),
{
    if i < s.len() - 1 {
        assert(s.last().0 != s[i].0);
        assert(s.drop_last()[i] == s[i]);
        lemma_balance_at(s.drop_last(), i);
    }
}

proof fn lemma_balance_absent(s: Seq<(AccountId, u128)>, a: AccountId)
    requires
        forall|i: int| 0 <= i < s.len() ==> s[i].0 != a,
    ensures
        balance_in(s, a) == 0,
    decreases s.len(),
{
    if s.len() > 0 {
        assert(s.last().0 != a);
        assert forall|i: int| 0 <= i < s.drop_last().len() implies s.drop_last()[i].0 != a by {
            assert(s.drop_last()[i] == s[i]);
        }
        lemma_balance_absent(s.drop_last(), a);
    }
}

proof fn lemma_update(s: Seq<(AccountId, u128)>, i: int, v: u128, a: AccountId)
    requires
        keys_unique(s),
        0 <= i < s.len(),
    ensures
        balance_in(s.update(i, (s[i].0, v)), a) == if a == s[i].0 {
            v as nat
        } else {
            balance_in(s, a)
        },
        sum_of(s.update(i, (s[i].0, v))) == sum_of(s) - s[i].1 + v,
        keys_unique(s.update(i, (s[i].0, v))),
    decreases s.len(),
{
    let t = s.update(i, (s[i].0, v));
    assert(keys_unique(t)) by {
        assert forall|p: int, q: int| 0 <= p < q < t.len() implies t[p].0 != t[q].0 by {
            assert(t[p].0 == s[p].0);
            assert(t[q].0 == s[q].0);
        }
    }
    if i == s.len() - 1 {
        assert(t.drop_last() =~= s.drop_last());
    } else {
        let d = s.drop_last();
        assert(t.drop_last() =~= d.update(i, (d[i].0, v)));
        assert(t.last() == s.last());
        assert(s.last().0 != s[i].0);
        assert(keys_unique(d));
        lemma_update(d, i, v, a);
    }
}

proof fn lemma_push(s: Seq<(AccountId, u128)>, k: AccountId, v: u128, a: AccountId)
    requires
        keys_unique(s),
        forall|i: int| 0 <= i < s.len() ==> s[i].0 != k,
    ensures
        balance_in(s.push((k, v)), a) == if a == k {
            v as nat
        } else {
            balance_in(s, a)
        },
        sum_of(s.push((k, v))) == sum_of(s) + v,
        keys_unique(s.push((k, v))),
{
    assert(s.push((k, v)).drop_last() =~= s);
}

proof fn lemma_balance_le_sum(s: Seq<(AccountId, u128)>, a: AccountId)
    requires
        keys_unique(s),
    ensures
        balance_in(s, a) <= sum_of(s),
    decreases s.len(),
{
    if s.len() > 0 {
        let d = s.drop_last();
        assert(keys_unique(d));
        lemma_balance_le_sum(d, a);
        if s.last().0 != a {
        }
    }
}

/// Why a ledger operation was refused; the ledger is then unchanged.
#[derive(Clone, Copy, Debug, PartialEq, Eq)]
pub enum LedgerError {
    InsufficientBalance,
    /// The total supply would exceed the native amount range.
    Overflow,
}

/// What a ledger holds: a balance for every account, and the total supply.
pub struct LedgerModel {
    pub balances: Map<AccountId, nat>,
    pub supply: nat,
}

/// Balances after `amount` is added to `a`.
pub open spec fn credit(m: Map<AccountId, nat>, a: AccountId, amount: nat) -> Map<AccountId, nat> {
    m.insert(a, m[a] + amount)
}

/// Balances after `amount` is taken from `a`.
pub open spec fn debit(m: Map<AccountId, nat>, a: AccountId, amount: nat) -> Map<AccountId, nat> {
    m.insert(a, (m[a] - amount) as nat)
}

/// A fungible ledger.
pub struct FungibleLedger {
    entries: Vec<(AccountId, u128)>,
    supply: u128,
}

/// Whether two accounts are the same.
pub fn same_account(a: &AccountId, b: &AccountId) -> (r: bool)
    ensures
        r == (*a == *b),
{
    let mut i: usize = 0;
    while i < 32
        invariant
            0 <= i <= 32,
            forall|j: int| 0 <= j < i ==> a[j] == b[j],
        decreases 32 - i,
    {
        if a[i] != b[i] {
            return false;
        }
        i = i + 1;
    }
    assert(*a =~= *b);
    true
}

impl View for FungibleLedger {
    type V = LedgerModel;

    closed spec fn view(&self) -> LedgerModel {
        LedgerModel {
            balances: Map::new(|a: AccountId| true, |a: AccountId| balance_in(self.entries@, a)),
            supply: self.supply as nat,
        }
    }
}

impl FungibleLedger {
    /// Entries have one account each, and the supply is their sum.
    pub closed spec fn wf(&self) -> bool {
        &&& keys_unique(self.entries@)
        &&& self.supply as nat == sum_of(self.entries@)
    }

    /// Every account's balance is part of the supply.
    pub proof fn lemma_balance_le_supply(&self, a: AccountId)
        requires
            self.wf(),
        ensures
            self@.balances.dom().contains(a),
            self@.balances[a] <= self@.supply,
            self@.supply <= u128::MAX,
    {
        lemma_balance_le_sum(self.entries@, a);
    }

    /// An empty ledger.
    pub fn new() -> (r: FungibleLedger)
        ensures
            r.wf(),
            r@.supply == 0,
            forall|a: AccountId| #[trigger] r@.balances[a] == 0 && r@.balances.dom().contains(a),
    {
        FungibleLedger { entries: Vec::new(), supply: 0 }
    }

    fn find(&self, a: &AccountId) -> (r: Option<usize>)
        ensures
            r matches Some(i) ==> i < self.entries@.len() && self.entries@[i as int].0 == *a,
            r is None ==> forall|i: int| 0 <= i < self.entries@.len() ==> self.entries@[i].0 != *a,
    {
        let mut i: usize = 0;
        while i < self.entries.len()
            invariant
                0 <= i <= self.entries@.len(),
                forall|j: int| 0 <= j < i ==> self.entries@[j].0 != *a,
            decreases self.entries@.len() - i,
        {
            if same_account(&self.entries[i].0, a) {
                return Some(i);
            }
            i = i + 1;
        }
        None
    }

    /// The balance of `a`.
    pub fn balance_of(&self, a: &AccountId) -> (r: u128)
        requires
            self.wf(),
        ensures
            r as nat == self@.balances[*a],
    {
        match self.find(a) {
            Some(i) => {
                proof {
                    lemma_balance_at(self.entries@, i as int);
                }
                self.entries[i].1
            },
            None => {
                proof {
                    lemma_balance_absent(self.entries@, *a);
                }
                0
            },
        }
    }

    /// The total supply.
    pub fn total_supply(&self) -> (r: u128)
        ensures
            r as nat == self@.supply,
    {
        self.supply
    }

    /// Sets the balance of `a` to `v`, moving the supply by the difference.
    fn set_balance(&mut self, a: &AccountId, v: u128, new_supply: u128)
        requires
            old(self).wf(),
            new_supply as nat + old(self)@.balances[*a] == old(self)@.supply + v,
        ensures
            final(self).wf(),
            final(self)@.supply == new_supply as nat,
            final(self)@.balances == old(self)@.balances.insert(*a, v as nat),
    {
        let ghost s = self.entries@;
        match self.find(a) {
            Some(i) => {
                proof {
                    lemma_balance_at(s, i as int);
                    assert forall|b: AccountId| true implies balance_in(
                        s.update(i as int, (s[i as int].0, v)),
                        b,
                    ) == if b == *a {
                        v as nat
                    } else {
                        balance_in(s, b)
                    } by {
                        lemma_update(s, i as int, v, b);
                    }
                    lemma_update(s, i as int, v, *a);
                }
                self.entries.set(i, (*a, v));
                assert(self.entries@ == s.update(i as int, (s[i as int].0, v)));
            },
            None => {
                proof {
                    lemma_balance_absent(s, *a);
                    assert forall|b: AccountId| true implies balance_in(s.push((*a, v)), b) == if b
                        == *a {
                        v as nat
                    } else {
                        balance_in(s, b)
                    } by {
                        lemma_push(s, *a, v, b);
                    }
                    lemma_push(s, *a, v, *a);
                }
                self.entries.push((*a, v));
            },
        }
        self.supply = new_supply;
        assert(self@.balances =~= old(self)@.balances.insert(*a, v as nat));
    }

    /// Creates `amount` for `to`; refused, with nothing changed, when the supply would
    /// exceed the native range.
    pub fn mint(&mut self, to: &AccountId, amount: u128) -> (r: Result<(), LedgerError>)
        requires
            old(self).wf(),
        ensures
            final(self).wf(),
            r is Err <==> old(self)@.supply + amount > u128::MAX,
            r is Err ==> r == Err::<(), LedgerError>(LedgerError::Overflow) && final(self)@
                == old(self)@,
            r is Ok ==> final(self)@.balances == credit(old(self)@.balances, *to, amount as nat)
                && final(self)@.supply == old(self)@.supply + amount,
    {
        let new_supply = match self.supply.checked_add(amount) {
            Some(s) => s,
            None => return Err(LedgerError::Overflow),
        };
        let b = self.balance_of(to);
        proof {
            self.lemma_balance_le_supply(*to);
        }
        self.set_balance(to, b + amount, new_supply);
        Ok(())
    }

    /// Destroys `amount` of `from`'s balance; refused, with nothing changed, when the
    /// balance is smaller.
    pub fn burn(&mut self, from: &AccountId, amount: u128) -> (r: Result<(), LedgerError>)
        requires
            old(self).wf(),
        ensures
            final(self).wf(),
            r is Err <==> old(self)@.balances[*from] < amount,
            r is Err ==> r == Err::<(), LedgerError>(LedgerError::InsufficientBalance)
                && final(self)@ == old(self)@,
            r is Ok ==> final(self)@.balances == debit(old(self)@.balances, *from, amount as nat)
                && final(self)@.supply == old(self)@.supply - amount,
    {
        let b = self.balance_of(from);
        if b < amount {
            return Err(LedgerError::InsufficientBalance);
        }
        proof {
            self.lemma_balance_le_supply(*from);
        }
        let new_supply = self.supply - amount;
        self.set_balance(from, b - amount, new_supply);
        Ok(())
    }

    /// Moves `amount` from `from` to `to`; refused, with nothing changed, when `from`'s
    /// balance is smaller.
    pub fn transfer(&mut self, from: &AccountId, to: &AccountId, amount: u128) -> (r: Result<
        (),
        LedgerError,
    >)
        requires
            old(self).wf(),
        ensures
            final(self).wf(),
            r is Err <==> old(self)@.balances[*from] < amount,
            r is Err ==> r == Err::<(), LedgerError>(LedgerError::InsufficientBalance)
                && final(self)@ == old(self)@,
            r is Ok ==> final(self)@.balances == credit(
                debit(old(self)@.balances, *from, amount as nat),
                *to,
                amount as nat,
            ) && final(self)@.supply == old(self)@.supply,
    {
        self.burn(from, amount)?;
        let r = self.mint(to, amount);
        assert(r is Ok);
        Ok(())
    }
}

} // verus!

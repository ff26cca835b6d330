//! Account balances, and the atomic movements of value between an account
//! and a vault.
use vstd::prelude::*;
use crate::address::Address;

verus! {

/// Why a movement of value could not take place.
#[derive(Clone, Copy, Debug, PartialEq, Eq, Structural)]
pub enum TransferError {
    /// The paying side holds less than the amount.
    InsufficientFunds,
    /// The receiving side would exceed the largest representable balance.
    BalanceOverflow,
}

/// The balance of `a` in the balance map `m`; an account never seen holds nothing.
pub open spec fn balance_in(m: Map<Address, u64>, a: Address) -> u64 {
    if m.contains_key(a) {
        m[a]
    } else {
        0
    }
}

/// `m` with `amount` added to the balance of `a`.
pub open spec fn credited(m: Map<Address, u64>, a: Address, amount: u64) -> Map<Address, u64> {
    m.insert(a, (balance_in(m, a) + amount) as u64)
}

/// `m` with `amount` taken from the balance of `a`.
pub open spec fn debited(m: Map<Address, u64>, a: Address, amount: u64) -> Map<Address, u64> {
    m.insert(a, (balance_in(m, a) - amount) as u64)
}

/// The balance of every account, in the ledger's smallest unit.
pub struct Balances {
    owners: Vec<Address>,
    amounts: Vec<u64>,
    model: Ghost<Map<Address, u64>>,
}

impl View for Balances {
    type V = Map<Address, u64>;

    closed spec fn view(&self) -> Map<Address, u64> {
        self.model@
    }
}

impl Balances {
    /// Owners are distinct, and the table holds exactly the balances of the model.
    pub closed spec fn wf(&self) -> bool {
        &&& self.owners@.len() == self.amounts@.len()
        &&& forall|i: int, j: int|
            0 <= i < j < self.owners@.len() ==> self.owners@[i] != self.owners@[j]
        &&& forall|i: int|
            0 <= i < self.owners@.len() ==> {
                &&& #[trigger] self.model@.contains_key(self.owners@[i])
                &&& self.model@[self.owners@[i]] == self.amounts@[i]
            }
        &&& forall|a: Address|
            #[trigger] self.model@.contains_key(a) ==> exists|i: int|
                0 <= i < self.owners@.len() && self.owners@[i] == a
    }

    /// The balance of `a`; an account never seen holds nothing.
    pub open spec fn lamports(&self, a: Address) -> u64 {
        balance_in(self@, a)
    }

    /// No account holds anything yet.
    pub fn new() -> (r: Balances)
        ensures
            r.wf(),
            r@ == Map::<Address, u64>::empty(),
    {
        Balances { owners: Vec::new(), amounts: Vec::new(), model: Ghost(Map::empty()) }
    }

    fn position(&self, a: &Address) -> (r: Option<usize>)
        requires
            self.wf(),
        ensures
            match r {
                Some(i) => i < self.owners@.len() && self.owners@[i as int] == *a,
                None => !self@.contains_key(*a),
            },
    {
        let mut i: usize = 0;
        while i < self.owners.len()
            invariant
                self.wf(),
                i <= self.owners@.len(),
                forall|j: int| 0 <= j < i ==> self.owners@[j] != *a,
            decreases self.owners@.len() - i,
        {
            if self.owners[i] == *a {
                return Some(i);
            }
            i = i + 1;
        }
        None
    }

    /// The balance of `a`.
    pub fn balance_of(&self, a: &Address) -> (r: u64)
        requires
            self.wf(),
        ensures
            r == self.lamports(*a),
    {
        match self.position(a) {
            Some(i) => {
                assert(self.model@.contains_key(self.owners@[i as int]));
                self.amounts[i]
            },
            None => 0,
        }
    }

    fn set_balance(&mut self, a: &Address, amount: u64)
        requires
            old(self).wf(),
        ensures
            final(self).wf(),
            final(self)@ == old(self)@.insert(*a, amount),
    {
        let ghost k = *a;
        match self.position(a) {
            Some(i) => {
                self.amounts.set(i, amount);
                self.model = Ghost(self.model@.insert(k, amount));
                assert forall|j: int| 0 <= j < self.owners@.len() implies {
                    &&& #[trigger] self.model@.contains_key(self.owners@[j])
                    &&& self.model@[self.owners@[j]] == self.amounts@[j]
                } by {
                    assert(old(self).model@.contains_key(old(self).owners@[j]));
                    if j != i {
                        assert(self.owners@[j] != k);
                    }
                }
            },
            None => {
                self.owners.push(*a);
                self.amounts.push(amount);
                self.model = Ghost(self.model@.insert(k, amount));
                assert forall|b: Address| #[trigger] self.model@.contains_key(b) implies exists|
                    j: int,
                | 0 <= j < self.owners@.len() && self.owners@[j] == b by {
                    if b == k {
                        assert(self.owners@[self.owners@.len() - 1] == b);
                    } else {
                        let j = choose|j: int|
                            0 <= j < old(self).owners@.len() && old(self).owners@[j] == b;
                        assert(self.owners@[j] == b);
                    }
                }
            },
        }
    }

    /// Adds `amount` to the balance of `to`, as value arriving from outside
    /// the ledgers.
    pub fn deposit(&mut self, to: &Address, amount: u64) -> (r: Result<(), TransferError>)
        requires
            old(self).wf(),
        ensures
            final(self).wf(),
            r is Err <==> old(self).lamports(*to) + amount > u64::MAX,
            r is Err ==> r == Err::<(), TransferError>(TransferError::BalanceOverflow)
                && final(self)@ == old(self)@,
            r is Ok ==> final(self)@ == credited(old(self)@, *to, amount),
    {
        let have = self.balance_of(to);
        if have > u64::MAX - amount {
            return Err(TransferError::BalanceOverflow);
        }
        self.set_balance(to, have + amount);
        Ok(())
    }

    /// Moves `amount` from the account `from` into the vault whose balance is
    /// `vault`: both sides change, or neither does.
    pub fn pay_in(&mut self, from: &Address, vault: &mut u64, amount: u64) -> (r: Result<
        (),
        TransferError,
    >)
        requires
            old(self).wf(),
        ensures
            final(self).wf(),
            r == (if old(self).lamports(*from) < amount {
                Err(TransferError::InsufficientFunds)
            } else if *old(vault) + amount > u64::MAX {
                Err(TransferError::BalanceOverflow)
            } else {
                Ok(())
            }),
            r is Ok ==> final(self)@ == debited(old(self)@, *from, amount)
                && *final(vault) == *old(vault) + amount,
            r is Err ==> final(self)@ == old(self)@ && *final(vault) == *old(vault),
    {
        let have = self.balance_of(from);
        if have < amount {
            return Err(TransferError::InsufficientFunds);
        }
        if *vault > u64::MAX - amount {
            return Err(TransferError::BalanceOverflow);
        }
        self.set_balance(from, have - amount);
        *vault = *vault + amount;
        Ok(())
    }

    /// Moves `amount` out of the vault whose balance is `vault` into the
    /// account `to`: both sides change, or neither does.
    pub fn pay_out(&mut self, vault: &mut u64, to: &Address, amount: u64) -> (r: Result<
        (),
        TransferError,
    >)
        requires
            old(self).wf(),
        ensures
            final(self).wf(),
            r == (if *old(vault) < amount {
                Err(TransferError::InsufficientFunds)
            } else if old(self).lamports(*to) + amount > u64::MAX {
                Err(TransferError::BalanceOverflow)
            } else {
                Ok(())
            }),
            r is Ok ==> final(self)@ == credited(old(self)@, *to, amount)
                && *final(vault) == *old(vault) - amount,
            r is Err ==> final(self)@ == old(self)@ && *final(vault) == *old(vault),
    {
        if *vault < amount {
            return Err(TransferError::InsufficientFunds);
        }
        let have = self.balance_of(to);
        if have > u64::MAX - amount {
            return Err(TransferError::BalanceOverflow);
        }
        self.set_balance(to, have + amount);
        *vault = *vault - amount;
        Ok(())
    }
}

} // verus!

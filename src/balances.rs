use std::collections::HashMap;
use vstd::prelude::*;
use vstd::std_specs::hash::group_hash_axioms;

verus! {

broadcast use group_hash_axioms;

/// Free and reserved funds of one account.
#[derive(Clone, Copy, Debug, PartialEq, Eq, Structural)]
pub struct AccountData {
    /// Spendable funds.
    pub free: u64,
    /// Funds held in escrow.
    pub reserved: u64,
}

/// An in-memory balance ledger that can hold funds in escrow.
pub struct Balances {
    accounts: HashMap<u64, AccountData>,
}

impl Balances {
    /// Funds of every account; an account never seen holds nothing.
    pub closed spec fn accounts(&self) -> Map<u64, AccountData> {
        self.accounts@
    }

    /// Spendable funds of `who`.
    pub open spec fn free_of(&self, who: u64) -> u64 {
        if self.accounts().contains_key(who) {
            self.accounts()[who].free
        } else {
            0
        }
    }

    /// Funds of `who` held in escrow.
    pub open spec fn reserved_of(&self, who: u64) -> u64 {
        if self.accounts().contains_key(who) {
            self.accounts()[who].reserved
        } else {
            0
        }
    }

    /// A ledger in which every account holds nothing.
    pub fn new() -> (r: Balances)
        ensures
            forall|who: u64| r.free_of(who) == 0 && r.reserved_of(who) == 0,
    {
        Balances { accounts: HashMap::new() }
    }

    /// Sets the free funds of `who`, keeping what it has in escrow.
    pub fn set_free_balance(&mut self, who: u64, amount: u64)
        ensures
            final(self).free_of(who) == amount,
            final(self).reserved_of(who) == old(self).reserved_of(who),
            forall|other: u64|
                other != who ==> final(self).free_of(other) == old(self).free_of(other)
                    && final(self).reserved_of(other) == old(self).reserved_of(other),
    {
        let reserved = self.reserved_balance(who);
        self.accounts.insert(who, AccountData { free: amount, reserved });
    }

    /// Spendable funds of `who`.
    pub fn free_balance(&self, who: u64) -> (r: u64)
        ensures
            r == self.free_of(who),
    {
        match self.accounts.get(&who) {
            Some(data) => data.free,
            None => 0,
        }
    }

    /// Funds of `who` held in escrow.
    pub fn reserved_balance(&self, who: u64) -> (r: u64)
        ensures
            r == self.reserved_of(who),
    {
        match self.accounts.get(&who) {
            Some(data) => data.reserved,
            None => 0,
        }
    }

    /// Whether `amount` can move from the free funds of `who` into escrow.
    pub open spec fn can_reserve(&self, who: u64, amount: u64) -> bool {
        &&& amount <= self.free_of(who)
        &&& self.reserved_of(who) + amount <= u64::MAX
    }

    /// Moves `amount` from the free funds of `who` into escrow. On refusal
    /// the ledger is left as it was.
    pub fn reserve(&mut self, who: u64, amount: u64) -> (r: bool)
        ensures
            r == old(self).can_reserve(who, amount),
            r ==> final(self).free_of(who) == old(self).free_of(who) - amount,
            r ==> final(self).reserved_of(who) == old(self).reserved_of(who) + amount,
            r ==> forall|other: u64|
                other != who ==> final(self).free_of(other) == old(self).free_of(other)
                    && final(self).reserved_of(other) == old(self).reserved_of(other),
            !r ==> *final(self) == *old(self),
    {
        let free = self.free_balance(who);
        let reserved = self.reserved_balance(who);
        if amount > free {
            return false;
        }
        match reserved.checked_add(amount) {
            None => false,
            Some(new_reserved) => {
                self.accounts.insert(who, AccountData { free: free - amount, reserved: new_reserved });
                true
            },
        }
    }
}

} // verus!

use vstd::prelude::*;

use std::collections::HashMap;

use crate::error::UpgradeError;

verus! {

/// The balance of `owner` in `m`; a player without an entry holds nothing.
pub open spec fn balance_spec(m: Map<u64, u64>, owner: u64) -> u64 {
    if m.contains_key(owner) {
        m[owner]
    } else {
        0
    }
}

/// The artifact balance of every player.
pub struct Wallet {
    balances: HashMap<u64, u64>,
}

impl View for Wallet {
    type V = Map<u64, u64>;

    closed spec fn view(&self) -> Map<u64, u64> {
        self.balances@
    }
}

impl Wallet {
    /// A wallet in which every player holds nothing.
    pub fn new() -> (r: Wallet)
        ensures
            r@ == Map::<u64, u64>::empty(),
    {
        Wallet { balances: HashMap::new() }
    }

    /// The balance of `owner`.
    pub fn balance(&self, owner: u64) -> (r: u64)
        ensures
            r == balance_spec(self@, owner),
    {
        match self.balances.get(&owner) {
            Some(b) => *b,
            None => 0,
        }
    }

    /// Sets the balance of `owner` to `amount`.
    pub fn set_balance(&mut self, owner: u64, amount: u64)
        ensures
            final(self)@ == old(self)@.insert(owner, amount),
    {
        self.balances.insert(owner, amount);
    }

    /// Takes `amount` from the balance of `owner`; `InsufficientFunds`, with
    /// nothing taken, when the balance is below `amount`.
    pub fn debit(&mut self, owner: u64, amount: u64) -> (r: Result<(), UpgradeError>)
        ensures
            r == (if amount <= balance_spec(old(self)@, owner) {
                Ok(())
            } else {
                Err(UpgradeError::InsufficientFunds)
            }),
            r is Ok ==> final(self)@ == old(self)@.insert(
                owner,
                (balance_spec(old(self)@, owner) - amount) as u64,
            ),
            r is Err ==> final(self)@ == old(self)@,
    {
        let b = self.balance(owner);
        if b < amount {
            Err(UpgradeError::InsufficientFunds)
        } else {
            self.balances.insert(owner, b - amount);
            Ok(())
        }
    }
}

} // verus!

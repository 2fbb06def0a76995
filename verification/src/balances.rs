//! The transfer executor: an explicit model of the external ledger's account
//! balances, with existential-deposit (keep-alive) transfer semantics. A
//! transfer that would leave the source below its required minimum fails
//! atomically, leaving every balance as it stood.

use vstd::prelude::*;
use vstd::hash_map::HashMapWithView;
use crate::helper::{AccountId, Balance};

verus! {

broadcast use vstd::std_specs::hash::group_hash_axioms;

/// Why a transfer is refused; every refusal leaves all balances unchanged.
#[derive(Clone, Copy, Debug, PartialEq, Eq, Structural)]
pub enum TransferError {
    /// The source holds less than the requested amount.
    InsufficientBalance,
    /// The transfer would leave the source below its existential deposit.
    KeepAlive,
    /// The destination balance cannot take the amount.
    Overflow,
}

/// The ledger's free balances, keyed by account; an account absent from the
/// store holds zero.
pub struct Balances {
    free: HashMapWithView<AccountId, Balance>,
    existential_deposit: Balance,
}

impl Balances {
    /// The free balance of an account: zero when the ledger holds no entry.
    pub closed spec fn free(self, who: AccountId) -> Balance {
        if self.free@.contains_key(who) {
            self.free@[who]
        } else {
            0
        }
    }

    /// The minimum balance an account must keep to stay alive.
    pub closed spec fn existential_deposit(self) -> Balance {
        self.existential_deposit
    }

    /// Why `transfer` refuses a movement, if it does: the checks are made in
    /// this order, and success is owed exactly when none of them fires.
    pub open spec fn transfer_error(self, from: AccountId, to: AccountId, amount: Balance) -> Option<
        TransferError,
    > {
        if self.free(from) < amount {
            Option::Some(TransferError::InsufficientBalance)
        } else if self.free(from) - amount < self.existential_deposit() {
            Option::Some(TransferError::KeepAlive)
        } else if from != to && self.free(to) + amount > u128::MAX {
            Option::Some(TransferError::Overflow)
        } else {
            Option::None
        }
    }

    /// What `transfer_all` moves out of the source: everything, or everything
    /// above the existential deposit when the source must stay alive.
    pub open spec fn transferable(self, from: AccountId, keep_alive: bool) -> Balance {
        if keep_alive {
            if self.free(from) >= self.existential_deposit() {
                (self.free(from) - self.existential_deposit()) as Balance
            } else {
                0
            }
        } else {
            self.free(from)
        }
    }

    /// Why `transfer_all` refuses a movement, if it does.
    pub open spec fn transfer_all_error(
        self,
        from: AccountId,
        to: AccountId,
        keep_alive: bool,
    ) -> Option<TransferError> {
        if from != to && self.free(to) + self.transferable(from, keep_alive) > u128::MAX {
            Option::Some(TransferError::Overflow)
        } else {
            Option::None
        }
    }

    /// An empty ledger with the given existential deposit.
    pub fn new(existential_deposit: Balance) -> (r: Balances)
        ensures
            forall|w: AccountId| #[trigger] r.free(w) == 0,
            r.existential_deposit() == existential_deposit,
    {
        Balances { free: HashMapWithView::new(), existential_deposit }
    }

    /// The free balance of an account.
    pub fn free_balance(&self, who: AccountId) -> (r: Balance)
        ensures
            r == self.free(who),
    {
        match self.free.get(&who) {
            Some(b) => *b,
            None => 0,
        }
    }

    /// Endows an account directly; the hook by which a host seeds balances.
    pub fn set_free_balance(&mut self, who: AccountId, amount: Balance)
        ensures
            final(self).free(who) == amount,
            forall|w: AccountId| w != who ==> #[trigger] final(self).free(w) == old(self).free(w),
            final(self).existential_deposit() == old(self).existential_deposit(),
    {
        self.free.insert(who, amount);
    }

    /// Moves `amount` from one account to another, keeping the source alive:
    /// the source must retain at least its existential deposit.
    pub fn transfer(&mut self, from: AccountId, to: AccountId, amount: Balance) -> (r: Result<
        (),
        TransferError,
    >)
        ensures
            final(self).existential_deposit() == old(self).existential_deposit(),
            match old(self).transfer_error(from, to, amount) {
                Option::Some(e) => r == Err::<(), TransferError>(e) && *final(self) == *old(self),
                Option::None => {
                    &&& r == Ok::<(), TransferError>(())
                    &&& from == to ==> forall|w: AccountId|
                        #[trigger] final(self).free(w) == old(self).free(w)
                    &&& from != to ==> {
                        &&& final(self).free(from) == old(self).free(from) - amount
                        &&& final(self).free(to) == old(self).free(to) + amount
                        &&& forall|w: AccountId|
                            w != from && w != to ==> #[trigger] final(self).free(w) == old(
                                self,
                            ).free(w)
                    }
                },
            },
    {
        let from_bal = self.free_balance(from);
        if from_bal < amount {
            return Err(TransferError::InsufficientBalance);
        }
        if from_bal - amount < self.existential_deposit {
            return Err(TransferError::KeepAlive);
        }
        if from != to {
            let to_bal = self.free_balance(to);
            if amount > u128::MAX - to_bal {
                return Err(TransferError::Overflow);
            }
            self.free.insert(from, from_bal - amount);
            self.free.insert(to, to_bal + amount);
        }
        Ok(())
    }

    /// Moves everything the source may part with to the destination; with
    /// `keep_alive` the source retains its existential deposit, without it
    /// the source is emptied.
    pub fn transfer_all(&mut self, from: AccountId, to: AccountId, keep_alive: bool) -> (r: Result<
        (),
        TransferError,
    >)
        ensures
            final(self).existential_deposit() == old(self).existential_deposit(),
            match old(self).transfer_all_error(from, to, keep_alive) {
                Option::Some(e) => r == Err::<(), TransferError>(e) && *final(self) == *old(self),
                Option::None => {
                    &&& r == Ok::<(), TransferError>(())
                    &&& from == to ==> forall|w: AccountId|
                        #[trigger] final(self).free(w) == old(self).free(w)
                    &&& from != to ==> {
                        &&& final(self).free(from) == old(self).free(from) - old(
                            self,
                        ).transferable(from, keep_alive)
                        &&& final(self).free(to) == old(self).free(to) + old(self).transferable(
                            from,
                            keep_alive,
                        )
                        &&& forall|w: AccountId|
                            w != from && w != to ==> #[trigger] final(self).free(w) == old(
                                self,
                            ).free(w)
                    }
                },
            },
    {
        if from == to {
            return Ok(());
        }
        let from_bal = self.free_balance(from);
        let amount = if keep_alive {
            if from_bal >= self.existential_deposit {
                from_bal - self.existential_deposit
            } else {
                0
            }
        } else {
            from_bal
        };
        let to_bal = self.free_balance(to);
        if amount > u128::MAX - to_bal {
            return Err(TransferError::Overflow);
        }
        self.free.insert(from, from_bal - amount);
        self.free.insert(to, to_bal + amount);
        Ok(())
    }

    /// Whether an emptying `transfer_all` to `to` is certain to succeed.
    pub fn can_transfer_all(&self, from: AccountId, to: AccountId) -> (r: bool)
        ensures
            r == (self.transfer_all_error(from, to, false) == Option::<TransferError>::None),
    {
        if from == to {
            true
        } else {
            let from_bal = self.free_balance(from);
            let to_bal = self.free_balance(to);
            from_bal <= u128::MAX - to_bal
        }
    }
}

} // verus!

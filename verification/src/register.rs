//! User registration bookkeeping: payee and payer records, and the running
//! user count from which payee reference numbers are issued.

use vstd::prelude::*;
use vstd::hash_map::HashMapWithView;
use crate::helper::{AccountId, Confirm};

verus! {

broadcast use vstd::std_specs::hash::group_hash_axioms;

/// Why a registration is refused.
#[derive(Clone, Copy, Debug, PartialEq, Eq, Structural)]
pub enum Error {
    AccountAlreadyRegistered,
}

/// What is stored for a registered user: the account itself and, for a
/// payee, the reference number issued at registration.
#[derive(Clone, Copy, Debug)]
pub struct VaneAccountData {
    pub reference: Option<u32>,
    pub account: AccountId,
}

/// The registration state.
pub struct Pallet {
    total_users: u32,
    payee_storage: HashMapWithView<AccountId, VaneAccountData>,
    payer_storage: HashMapWithView<AccountId, VaneAccountData>,
}

impl Pallet {
    /// How many registrations have completed.
    pub closed spec fn spec_total_users(self) -> u32 {
        self.total_users
    }

    /// The payee records, keyed by account.
    pub closed spec fn payee_map(self) -> Map<AccountId, VaneAccountData> {
        self.payee_storage@
    }

    /// The payer records, keyed by account.
    pub closed spec fn payer_map(self) -> Map<AccountId, VaneAccountData> {
        self.payer_storage@
    }

    /// A fresh registration state with no users.
    pub fn new() -> (r: Pallet)
        ensures
            r.spec_total_users() == 0,
            r.payee_map() == Map::<AccountId, VaneAccountData>::empty(),
            r.payer_map() == Map::<AccountId, VaneAccountData>::empty(),
    {
        Pallet {
            total_users: 0,
            payee_storage: HashMapWithView::new(),
            payer_storage: HashMapWithView::new(),
        }
    }

    /// How many registrations have completed.
    pub fn get_total_users(&self) -> (r: u32)
        ensures
            r == self.spec_total_users(),
    {
        self.total_users
    }

    /// The payee record of an account, if one was stored.
    pub fn get_payee_data(&self, who: AccountId) -> (r: Option<VaneAccountData>)
        ensures
            match r {
                Some(d) => self.payee_map().contains_key(who) && d == self.payee_map()[who],
                None => !self.payee_map().contains_key(who),
            },
    {
        match self.payee_storage.get(&who) {
            Some(d) => Some(*d),
            None => None,
        }
    }

    /// The payer record of an account, if one was stored.
    pub fn get_payer_data(&self, who: AccountId) -> (r: Option<VaneAccountData>)
        ensures
            match r {
                Some(d) => self.payer_map().contains_key(who) && d == self.payer_map()[who],
                None => !self.payer_map().contains_key(who),
            },
    {
        match self.payer_storage.get(&who) {
            Some(d) => Some(*d),
            None => None,
        }
    }

    /// Registers a signer under a role. The guard admits only signers that
    /// already hold a payer record; any other signer is refused. A payee
    /// registration is issued the current user count as its reference
    /// number; a payer registration stores none. Each completed
    /// registration raises the user count by one.
    pub fn register(&mut self, signer: AccountId, who: Confirm) -> (r: Result<(), Error>)
        requires
            old(self).spec_total_users() < u32::MAX,
        ensures
            !old(self).payer_map().contains_key(signer) ==> r == Err::<(), Error>(
                Error::AccountAlreadyRegistered,
            ) && *final(self) == *old(self),
            old(self).payer_map().contains_key(signer) ==> {
                &&& r == Ok::<(), Error>(())
                &&& final(self).spec_total_users() == old(self).spec_total_users() + 1
                &&& match who {
                    Confirm::Payee => final(self).payee_map() == old(self).payee_map().insert(
                        signer,
                        (VaneAccountData {
                            reference: Option::Some(old(self).spec_total_users()),
                            account: signer,
                        }),
                    ) && final(self).payer_map() == old(self).payer_map(),
                    Confirm::Payer => final(self).payer_map() == old(self).payer_map().insert(
                        signer,
                        (VaneAccountData { reference: Option::None, account: signer }),
                    ) && final(self).payee_map() == old(self).payee_map(),
                }
            },
    {
        if !self.payer_storage.contains_key(&signer) {
            return Err(Error::AccountAlreadyRegistered);
        }
        match who {
            Confirm::Payee => {
                let reference_no = self.total_users;
                let user_data = VaneAccountData { reference: Some(reference_no), account: signer };
                self.payee_storage.insert(signer, user_data);
            },
            Confirm::Payer => {
                let user_data = VaneAccountData { reference: None, account: signer };
                self.payer_storage.insert(signer, user_data);
            },
        }
        self.total_users = self.total_users + 1;
        Ok(())
    }
}

} // verus!

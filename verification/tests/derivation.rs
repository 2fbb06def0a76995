//! Joint-account derivation: determinism, order sensitivity, and resolver
//! participation.

use vane_payment::helper::{AccountSigners, Resolver};
use vane_payment::payment::Pallet;

// A testing account object.
pub fn new_acc(payee: u64, payer: u64) -> AccountSigners {
    AccountSigners::new(payee, payer, None)
}

// Deriving a multi-id account yields the known stable value.
#[test]
fn derive_multi_id_test() {
    let acc = new_acc(2, 1);
    assert_eq!(Pallet::derive_multi_id(acc), 3149924236044933178);
}

// Derivation is a pure function: repeated calls on equal inputs agree,
// within one process and across fresh state.
#[test]
fn derive_multi_id_deterministic() {
    let first = Pallet::derive_multi_id(new_acc(2, 1));
    let second = Pallet::derive_multi_id(new_acc(2, 1));
    assert_eq!(first, second);
    let third = Pallet::derive_multi_id(AccountSigners::new(2, 1, None));
    assert_eq!(first, third);
}

// Payee and payer are not interchangeable in the hash input.
#[test]
fn derive_multi_id_order_sensitive() {
    let ab = Pallet::derive_multi_id(new_acc(2, 1));
    let ba = Pallet::derive_multi_id(new_acc(1, 2));
    assert_ne!(ab, ba);
}

// Only a legal-team resolver contributes an extra identity to the
// derivation; governance does not alter the derived id.
#[test]
fn derive_multi_id_resolver_participation() {
    let plain = Pallet::derive_multi_id(new_acc(2, 1));
    let with_legal =
        Pallet::derive_multi_id(AccountSigners::new(2, 1, Some(Resolver::LegalTeam(9))));
    assert_ne!(plain, with_legal);
    let with_governance =
        Pallet::derive_multi_id(AccountSigners::new(2, 1, Some(Resolver::Governance)));
    assert_eq!(plain, with_governance);
}

// The signer getters hand back what the constructor recorded.
#[test]
fn account_signers_getters() {
    let acc = AccountSigners::new(2, 1, Some(Resolver::LegalTeam(9)));
    assert_eq!(acc.get_payee(), 2);
    assert_eq!(acc.get_payer(), 1);
    assert_eq!(acc.get_legal_account(), Some(9));
    let acc2 = AccountSigners::new(2, 1, Some(Resolver::Both(9)));
    assert_eq!(acc2.get_legal_account(), None);
    let acc3 = new_acc(2, 1);
    assert_eq!(acc3.get_legal_account(), None);
}

//! The escrow protocol end to end: initiation, confirmation ordering,
//! capacity, verification and release, and the revert bookkeeping.

use vane_payment::balances::TransferError;
use vane_payment::helper::{AccountSigners, Confirm, ResolverChoice, RevertReasons};
use vane_payment::payment::{Error, Pallet};

const EXISTENTIAL_DEPOSIT: u128 = 500;

// A testing account object.
pub fn new_acc(payee: u64, payer: u64) -> AccountSigners {
    AccountSigners::new(payee, payer, None)
}

// A fresh escrow state endowed like the test chain: a rich payer and two
// possible payees.
fn new_test_ext() -> Pallet {
    let mut pallet = Pallet::new(EXISTENTIAL_DEPOSIT);
    pallet.set_free_balance(1, 1_000_000);
    pallet.set_free_balance(2, 99_500);
    pallet.set_free_balance(5, 1_000);
    pallet
}

// Account formation and storage in the account registry.
#[test]
fn multi_acc_formation_storage_test() {
    let mut pallet = new_test_ext();
    let acc = new_acc(2, 1);
    let multi_id = Pallet::derive_multi_id(acc);
    assert_eq!(pallet.create_multi_account(multi_id), Ok(()));

    assert!(pallet.account_exists_in_registry(multi_id));
    assert_eq!(pallet.consumers_of(multi_id), 1);

    // A second registration of the same id is refused.
    assert_eq!(pallet.create_multi_account(multi_id), Err(Error::MultiAccountExists));
}

// Payee and payer confirmation, ordering, capacity and release.
#[test]
fn account_confirmation() {
    let mut pallet = new_test_ext();
    assert_eq!(pallet.vane_pay(1, Some(2), 100_000, ResolverChoice::NoResolver), Ok(()));
    // Payer confirmation first fails.
    assert_eq!(pallet.confirm_pay(1, Confirm::Payer, 0), Err(Error::WaitForPayeeToConfirm));
    // Payee confirmation works.
    assert_eq!(pallet.confirm_pay(2, Confirm::Payee, 0), Ok(()));
    // Payee re-confirmation fails.
    assert_eq!(pallet.confirm_pay(2, Confirm::Payee, 0), Err(Error::PayeeAlreadyConfirmed));
    // Payer confirmation releases the escrow.
    assert_eq!(pallet.confirm_pay(1, Confirm::Payer, 0), Ok(()));

    assert_eq!(pallet.get_signers(0), vec![2, 1]);

    // A third confirmer finds the list full.
    assert_eq!(pallet.confirm_pay(3, Confirm::Payer, 0), Err(Error::ExceededSigners));

    assert_eq!(pallet.free_balance(2), 199_500);
}

// Opening the joint account moves the amount out of the payer.
#[test]
fn inner_vane_pay_wo_resolver_test() {
    let mut pallet = new_test_ext();
    let acc = new_acc(5, 1);
    let multi_id = Pallet::derive_multi_id(acc);
    assert_eq!(pallet.inner_vane_pay_wo_resolver(1, 5, 100_000), Ok(()));

    assert_eq!(pallet.free_balance(multi_id), 100_000);
    assert_eq!(pallet.free_balance(5), 1_000);
}

// The dispatch helper records the call and empties the joint account into
// the payee.
#[test]
fn multi_sig_single() {
    let mut pallet = new_test_ext();
    let acc = new_acc(5, 1);
    let multi_id = Pallet::derive_multi_id(acc);
    assert_eq!(pallet.inner_vane_pay_wo_resolver(1, 5, 100_000), Ok(()));
    assert_eq!(pallet.free_balance(1), 900_000);
    assert_eq!(pallet.free_balance(5), 1_000);
    assert_eq!(pallet.free_balance(multi_id), 100_000);

    // Transfer from the joint account to the payee, under a proof binding
    // the two (identical) ids.
    let mut encoded: Vec<u8> = Vec::new();
    encoded.extend_from_slice(&multi_id.to_le_bytes());
    encoded.extend_from_slice(&multi_id.to_le_bytes());
    let proof = vane_payment::hashing::blake2b_256(&encoded);

    assert_eq!(pallet.dispatch_transfer_call(proof, 1, 5, multi_id, multi_id), Ok(()));

    assert_eq!(pallet.get_account_multitxns(1).expect("one record").len(), 1);
    assert_eq!(pallet.free_balance(multi_id), 0);
    assert_eq!(pallet.free_balance(5), 101_000);
    assert_eq!(pallet.free_balance(1), 900_000);
}

// The transfer dispatch inside a confirmed payment.
#[test]
fn dispatch_transfer_in_confirm_pay() {
    let mut pallet = new_test_ext();
    assert_eq!(pallet.inner_vane_pay_wo_resolver(1, 2, 100_000), Ok(()));
    assert_eq!(pallet.confirm_pay(2, Confirm::Payee, 0), Ok(()));
    // A stranger confirming as payer finds no initiated payment of theirs.
    assert_eq!(
        pallet.confirm_pay(3, Confirm::Payer, 0),
        Err(Error::NotAllowedPayeeOrPaymentNotInitialized)
    );
    assert_eq!(pallet.confirm_pay(1, Confirm::Payer, 0), Ok(()));

    assert_eq!(pallet.free_balance(2), 199_500);
}

// The full scenario: initiation, both confirmations, release, and the
// audit record.
#[test]
fn end_to_end_release() {
    let mut pallet = new_test_ext();
    pallet.set_block_number(42);
    let multi_id = Pallet::derive_multi_id(new_acc(5, 1));
    assert_eq!(pallet.vane_pay(1, Some(5), 100_000, ResolverChoice::NoResolver), Ok(()));
    assert_eq!(pallet.free_balance(multi_id), 100_000);
    assert_eq!(pallet.confirm_pay(5, Confirm::Payee, 7), Ok(()));
    let payee_before = pallet.free_balance(5);
    assert_eq!(pallet.confirm_pay(1, Confirm::Payer, 7), Ok(()));

    // The payee gains exactly the escrowed amount and the joint account
    // returns to its pre-funding baseline.
    assert_eq!(pallet.free_balance(5), payee_before + 100_000);
    assert_eq!(pallet.free_balance(multi_id), 0);

    // One audit record under the payer's history, binding both ids.
    let log = pallet.get_account_multitxns(1).expect("one record");
    assert_eq!(log.len(), 1);
    assert_eq!(log[0].time, 42);
    assert_eq!(log[0].payer, 1);
    assert_eq!(log[0].payee, 5);
    assert_eq!(log[0].allowed_multi_id, multi_id);
    assert_eq!(log[0].confirmed_multi_id, multi_id);
    assert_eq!(log[0].proof_hash.len(), 32);
}

// A confirmed pair that differs from the recorded intent is rejected and
// nothing moves.
#[test]
fn release_requires_exact_match() {
    let mut pallet = new_test_ext();
    pallet.set_free_balance(7, 600_000);
    // Payer 1 intends to pay 2; payer 7 intends to pay 9.
    assert_eq!(pallet.vane_pay(1, Some(2), 100_000, ResolverChoice::NoResolver), Ok(()));
    assert_eq!(pallet.vane_pay(7, Some(9), 200_000, ResolverChoice::NoResolver), Ok(()));

    let balance_2 = pallet.free_balance(2);
    let balance_7 = pallet.free_balance(7);
    let balance_9 = pallet.free_balance(9);

    // Payee 2 confirms under reference 5, then payer 7 confirms: the
    // confirmed pair {2, 7} does not match 7's recorded intent {9, 7}.
    assert_eq!(pallet.confirm_pay(2, Confirm::Payee, 5), Ok(()));
    assert_eq!(pallet.confirm_pay(7, Confirm::Payer, 5), Err(Error::FailedToMatchAccounts));

    // The escrow is left unresolved: one confirmation, no balance changes,
    // no audit record.
    assert_eq!(pallet.get_signers(5), vec![2]);
    assert_eq!(pallet.free_balance(2), balance_2);
    assert_eq!(pallet.free_balance(7), balance_7);
    assert_eq!(pallet.free_balance(9), balance_9);
    assert!(pallet.get_account_multitxns(7).is_none());
}

// The same identity confirming twice always fails and never appends twice,
// however often it is attempted.
#[test]
fn idempotent_double_confirmation() {
    let mut pallet = new_test_ext();
    assert_eq!(pallet.confirm_pay(2, Confirm::Payee, 0), Ok(()));
    for _ in 0..5 {
        assert_eq!(pallet.confirm_pay(2, Confirm::Payee, 0), Err(Error::PayeeAlreadyConfirmed));
        assert_eq!(pallet.confirm_pay(2, Confirm::Payer, 0), Err(Error::PayeeAlreadyConfirmed));
        assert_eq!(pallet.get_signers(0), vec![2]);
    }
}

// A third distinct confirmer for a full reference always finds it full.
#[test]
fn capacity_law() {
    let mut pallet = new_test_ext();
    assert_eq!(pallet.vane_pay(1, Some(2), 100_000, ResolverChoice::NoResolver), Ok(()));
    assert_eq!(pallet.confirm_pay(2, Confirm::Payee, 0), Ok(()));
    assert_eq!(pallet.confirm_pay(1, Confirm::Payer, 0), Ok(()));
    assert_eq!(pallet.get_signers(0), vec![2, 1]);
    for confirmer in [3u64, 4, 99] {
        assert_eq!(pallet.confirm_pay(confirmer, Confirm::Payer, 0), Err(Error::ExceededSigners));
        assert_eq!(pallet.confirm_pay(confirmer, Confirm::Payee, 0), Err(Error::ExceededSigners));
    }
    assert_eq!(pallet.get_signers(0), vec![2, 1]);
}

// A payer-role confirmation on a reference with no confirmations always
// fails, whatever the reference or identity.
#[test]
fn ordering_invariant() {
    let mut pallet = new_test_ext();
    for reference_no in [0u32, 1, 77] {
        for payer in [1u64, 2, 3] {
            assert_eq!(
                pallet.confirm_pay(payer, Confirm::Payer, reference_no),
                Err(Error::WaitForPayeeToConfirm)
            );
            assert_eq!(pallet.get_signers(reference_no), Vec::<u64>::new());
        }
    }
}

// A missing payee is rejected before anything happens.
#[test]
fn missing_payee_is_unexpected() {
    let mut pallet = new_test_ext();
    assert_eq!(pallet.vane_pay(1, None, 100_000, ResolverChoice::NoResolver), Err(Error::UnexpectedError));
    assert_eq!(pallet.get_allowed_signers(1).is_none(), true);
}

// Only the no-resolver flow is wired to execution: selecting a resolver
// acknowledges the call without recording or moving anything.
#[test]
fn resolver_choices_are_not_yet_wired() {
    let mut pallet = new_test_ext();
    assert_eq!(pallet.vane_pay(1, Some(2), 100_000, ResolverChoice::LegalTeam), Ok(()));
    assert_eq!(pallet.vane_pay(1, Some(2), 100_000, ResolverChoice::Governance), Ok(()));
    assert!(pallet.get_allowed_signers(1).is_none());
    assert_eq!(pallet.free_balance(1), 1_000_000);
}

// Initiating twice for the same pair collides on the derived account.
#[test]
fn repeated_initiation_collides() {
    let mut pallet = new_test_ext();
    assert_eq!(pallet.vane_pay(1, Some(2), 100_000, ResolverChoice::NoResolver), Ok(()));
    assert_eq!(
        pallet.vane_pay(1, Some(2), 100_000, ResolverChoice::NoResolver),
        Err(Error::MultiAccountExists)
    );
}

// The funding transfer is refused when the payer cannot cover the amount.
#[test]
fn initiation_insufficient_balance() {
    let mut pallet = new_test_ext();
    assert_eq!(
        pallet.vane_pay(5, Some(2), 100_000, ResolverChoice::NoResolver),
        Err(Error::Transfer(TransferError::InsufficientBalance))
    );
    assert_eq!(pallet.free_balance(5), 1_000);
}

// The funding transfer is refused when it would kill the payer's account.
#[test]
fn initiation_keeps_payer_alive() {
    let mut pallet = new_test_ext();
    assert_eq!(
        pallet.vane_pay(2, Some(5), 99_400, ResolverChoice::NoResolver),
        Err(Error::Transfer(TransferError::KeepAlive))
    );
    assert_eq!(pallet.free_balance(2), 99_500);
}

// The funding transfer is refused when the joint account cannot take the
// amount.
#[test]
fn initiation_overflow_is_refused() {
    let mut pallet = new_test_ext();
    let multi_id = Pallet::derive_multi_id(new_acc(2, 1));
    pallet.set_free_balance(multi_id, u128::MAX);
    assert_eq!(
        pallet.vane_pay(1, Some(2), 100_000, ResolverChoice::NoResolver),
        Err(Error::Transfer(TransferError::Overflow))
    );
    assert_eq!(pallet.free_balance(1), 1_000_000);
}

// Reverting increments the counter that matches the reason.
#[test]
fn revert_fund_counts_faults() {
    let mut pallet = new_test_ext();
    assert_eq!(pallet.get_failed_txn_payer(1), 0);
    assert_eq!(pallet.revert_fund(1, RevertReasons::ChangeOfDecision), Ok(()));
    assert_eq!(pallet.get_failed_txn_payer(1), 1);
    assert_eq!(pallet.revert_fund(1, RevertReasons::WrongPayeeAddress), Ok(()));
    assert_eq!(pallet.get_failed_txn_payer(1), 2);
    assert_eq!(pallet.get_failed_txn_payee(1), 0);

    // A payee fault needs an initiated payment to name the payee.
    assert_eq!(
        pallet.revert_fund(1, RevertReasons::PayeeMisbehaviour),
        Err(Error::NotAllowedPayeeOrPaymentNotInitialized)
    );
    assert_eq!(pallet.vane_pay(1, Some(2), 100_000, ResolverChoice::NoResolver), Ok(()));
    assert_eq!(pallet.revert_fund(1, RevertReasons::PayeeMisbehaviour), Ok(()));
    assert_eq!(pallet.get_failed_txn_payee(2), 1);
    assert_eq!(pallet.get_failed_txn_payer(1), 2);
}

// The allowed-signers getter hands back the recorded intent.
#[test]
fn allowed_signers_are_recorded() {
    let mut pallet = new_test_ext();
    assert_eq!(pallet.vane_pay(1, Some(2), 100_000, ResolverChoice::NoResolver), Ok(()));
    let signers = pallet.get_allowed_signers(1).expect("recorded at initiation");
    assert_eq!(signers.get_payee(), 2);
    assert_eq!(signers.get_payer(), 1);
    assert_eq!(signers.get_legal_account(), None);
}

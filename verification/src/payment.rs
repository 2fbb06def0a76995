//! The escrow protocol: initiation, confirmation, verification and release,
//! over explicit keyed storage relations and the modeled ledger.
//!
//! A payment is initiated by the payer, which records the allowed signers
//! and funds the derived joint account; each party then confirms under a
//! reference number; when the second confirmation lands, the identifier
//! derived from the confirmed pair is compared against the one derived from
//! the recorded intent, and only equality releases the funds to the payee.

use vstd::prelude::*;
use vstd::bytes::*;
use vstd::hash_map::HashMapWithView;
use vstd::slice::slice_subrange;
use crate::balances::{Balances, TransferError};
use crate::hashing::blake2b_256;
use crate::helper::{AccountId, AccountSigners, Balance, CallExecuted, Confirm, ResolverChoice, RevertReasons};
use crate::multi_id::{multi_id_of, pair_signers, proof_of, salt_bytes, signers_preimage};

verus! {

broadcast use vstd::std_specs::hash::group_hash_axioms;

/// Why an escrow operation is refused; every refusal leaves the whole state
/// as it stood before the call.
#[derive(Clone, Copy, Debug, PartialEq, Eq, Structural)]
pub enum Error {
    /// A precondition on caller input does not hold (a missing payee).
    UnexpectedError,
    /// The confirmed pair derives a different joint account than the
    /// recorded intent; the security-critical rejection.
    FailedToMatchAccounts,
    /// The freshly derived joint account is already registered.
    MultiAccountExists,
    /// The bounded confirmation list already holds two entries.
    ExceededSigners,
    AccountAlreadyExist,
    /// A payer-role confirmation arrived before the payee confirmed.
    WaitForPayeeToConfirm,
    WaitForPayerToConfirm,
    PayerAlreadyConfirmed,
    /// The same identity already confirmed under this reference.
    PayeeAlreadyConfirmed,
    /// No payment was initiated by the would-be payer.
    NotAllowedPayeeOrPaymentNotInitialized,
    MultiSigCallFailed,
    /// The ledger refused the movement of funds.
    Transfer(TransferError),
}

/// The bounded, ordered confirmation list of one payment reference: the
/// first slot is reserved for the payee, the second for the payer, and the
/// capacity is exactly two.
#[derive(Clone, Copy, Debug)]
pub struct Confirmations {
    pub payee_slot: Option<AccountId>,
    pub payer_slot: Option<AccountId>,
}

impl Confirmations {
    /// The list invariants: the payer slot is never filled before the payee
    /// slot, and the same identity never occupies both slots.
    pub open spec fn wf(self) -> bool {
        &&& self.payer_slot is Some ==> self.payee_slot is Some
        &&& match (self.payee_slot, self.payer_slot) {
            (Option::Some(p), Option::Some(q)) => p != q,
            _ => true,
        }
    }
}

/// A reference with no confirmations yet.
pub open spec fn no_confirmations() -> Confirmations {
    Confirmations { payee_slot: Option::None, payer_slot: Option::None }
}

/// The confirmed identities of a reference, payee first.
pub open spec fn confirmation_seq(c: Confirmations) -> Seq<AccountId> {
    (match c.payee_slot {
        Option::Some(p) => seq![p],
        Option::None => Seq::<AccountId>::empty(),
    }) + (match c.payer_slot {
        Option::Some(q) => seq![q],
        Option::None => Seq::<AccountId>::empty(),
    })
}

/// The identity in the payee slot; meaningful only when the slot is filled.
pub open spec fn payee_entry(c: Confirmations) -> AccountId {
    match c.payee_slot {
        Option::Some(p) => p,
        Option::None => 0,
    }
}

/// A misbehaviour counter after one more fault: counters only ever grow, and
/// stick at the largest representable count.
pub open spec fn bumped(c: u32) -> u32 {
    if c == u32::MAX {
        c
    } else {
        (c + 1) as u32
    }
}

/// The escrow state: the four keyed relations and the audit log, together
/// with the modeled external collaborators (the balance ledger, the account
/// registry, and the block clock).
pub struct Pallet {
    allowed_signers: HashMapWithView<AccountId, AccountSigners>,
    confirmed_signers: HashMapWithView<u32, Confirmations>,
    account_multi_txns: HashMapWithView<AccountId, Vec<CallExecuted>>,
    reverted_txn_payer: HashMapWithView<AccountId, u32>,
    reverted_txn_payee: HashMapWithView<AccountId, u32>,
    accounts: HashMapWithView<AccountId, u32>,
    balances: Balances,
    block_number: u64,
}

/// Both states hold the same account registry.
pub open spec fn same_accounts(a: Pallet, b: Pallet) -> bool {
    &&& forall|w: AccountId| #[trigger] b.account_exists(w) == a.account_exists(w)
    &&& forall|w: AccountId| #[trigger] b.consumers(w) == a.consumers(w)
}

/// Both states hold the same misbehaviour counters.
pub open spec fn same_faults(a: Pallet, b: Pallet) -> bool {
    &&& forall|w: AccountId| #[trigger] b.payer_faults(w) == a.payer_faults(w)
    &&& forall|w: AccountId| #[trigger] b.payee_faults(w) == a.payee_faults(w)
}

/// Both states hold the same audit histories.
pub open spec fn same_txns(a: Pallet, b: Pallet) -> bool {
    forall|w: AccountId| #[trigger] b.txn_log(w) == a.txn_log(w)
}

/// Both states hold the same confirmation lists.
pub open spec fn same_confirmations(a: Pallet, b: Pallet) -> bool {
    forall|r2: u32| #[trigger] b.confirmations(r2) == a.confirmations(r2)
}

/// Both states hold the same free balances.
pub open spec fn same_balances(a: Pallet, b: Pallet) -> bool {
    forall|w: AccountId| #[trigger] b.free(w) == a.free(w)
}

/// Why the funding transfer of an initiation fails, if it does: the payer
/// must cover the amount, stay above the keep-alive floor, and the joint
/// account must be able to take the amount.
pub open spec fn funding_transfer_error(
    pre: Pallet,
    payer: AccountId,
    multi_id: AccountId,
    amount: Balance,
) -> Option<TransferError> {
    if pre.free(payer) < amount {
        Option::Some(TransferError::InsufficientBalance)
    } else if pre.free(payer) - amount < pre.existential_deposit() {
        Option::Some(TransferError::KeepAlive)
    } else if payer != multi_id && pre.free(multi_id) + amount > u128::MAX {
        Option::Some(TransferError::Overflow)
    } else {
        Option::None
    }
}

/// Why the emptying release transfer from the joint account to the payee
/// fails, if it does: only a destination that cannot take the whole escrowed
/// balance refuses it.
pub open spec fn release_transfer_error(pre: Pallet, from: AccountId, to: AccountId) -> Option<
    TransferError,
> {
    if from != to && pre.free(to) + pre.free(from) > u128::MAX {
        Option::Some(TransferError::Overflow)
    } else {
        Option::None
    }
}

impl Pallet {
    /// The allowed-signers relation: the intent recorded at initiation,
    /// keyed by payer.
    pub closed spec fn allowed(self) -> Map<AccountId, AccountSigners> {
        self.allowed_signers@
    }

    /// The confirmation list of a reference; empty when none was recorded.
    pub closed spec fn confirmations(self, reference_no: u32) -> Confirmations {
        if self.confirmed_signers@.contains_key(reference_no) {
            self.confirmed_signers@[reference_no]
        } else {
            no_confirmations()
        }
    }

    /// The audit history of executed calls of an identity, oldest first.
    pub closed spec fn txn_log(self, who: AccountId) -> Seq<CallExecuted> {
        if self.account_multi_txns@.contains_key(who) {
            self.account_multi_txns@[who]@
        } else {
            Seq::<CallExecuted>::empty()
        }
    }

    /// How many payments an identity reverted as payer.
    pub closed spec fn payer_faults(self, who: AccountId) -> u32 {
        if self.reverted_txn_payer@.contains_key(who) {
            self.reverted_txn_payer@[who]
        } else {
            0
        }
    }

    /// How many times an identity misbehaved as payee.
    pub closed spec fn payee_faults(self, who: AccountId) -> u32 {
        if self.reverted_txn_payee@.contains_key(who) {
            self.reverted_txn_payee@[who]
        } else {
            0
        }
    }

    /// Whether an account is registered in the account registry.
    pub closed spec fn account_exists(self, who: AccountId) -> bool {
        self.accounts@.contains_key(who)
    }

    /// The consumer count of a registered account; zero when unregistered.
    pub closed spec fn consumers(self, who: AccountId) -> u32 {
        if self.accounts@.contains_key(who) {
            self.accounts@[who]
        } else {
            0
        }
    }

    /// The modeled balance ledger.
    pub closed spec fn ledger(self) -> Balances {
        self.balances
    }

    /// The free balance of an account.
    pub open spec fn free(self, who: AccountId) -> Balance {
        self.ledger().free(who)
    }

    /// The keep-alive floor of the ledger.
    pub open spec fn existential_deposit(self) -> Balance {
        self.ledger().existential_deposit()
    }

    /// The current block number, as the host last reported it.
    pub closed spec fn spec_block_number(self) -> u64 {
        self.block_number
    }

    /// Every stored confirmation list obeys the ordering invariant.
    pub closed spec fn wf(self) -> bool {
        forall|r: u32| #[trigger]
            self.confirmed_signers@.contains_key(r) ==> self.confirmed_signers@[r].wf()
    }

    /// A fresh escrow state over an empty ledger with the given keep-alive
    /// floor.
    pub fn new(existential_deposit: Balance) -> (r: Pallet)
        ensures
            r.wf(),
            r.allowed() == Map::<AccountId, AccountSigners>::empty(),
            forall|r2: u32| #[trigger] r.confirmations(r2) == no_confirmations(),
            forall|w: AccountId| #[trigger] r.txn_log(w) == Seq::<CallExecuted>::empty(),
            forall|w: AccountId| #[trigger] r.payer_faults(w) == 0,
            forall|w: AccountId| #[trigger] r.payee_faults(w) == 0,
            forall|w: AccountId| !(#[trigger] r.account_exists(w)),
            forall|w: AccountId| #[trigger] r.consumers(w) == 0,
            forall|w: AccountId| #[trigger] r.free(w) == 0,
            r.existential_deposit() == existential_deposit,
            r.spec_block_number() == 0,
    {
        Pallet {
            allowed_signers: HashMapWithView::new(),
            confirmed_signers: HashMapWithView::new(),
            account_multi_txns: HashMapWithView::new(),
            reverted_txn_payer: HashMapWithView::new(),
            reverted_txn_payee: HashMapWithView::new(),
            accounts: HashMapWithView::new(),
            balances: Balances::new(existential_deposit),
            block_number: 0,
        }
    }

    /// Sets the block clock; the host advances it between operations.
    pub fn set_block_number(&mut self, now: u64)
        ensures
            final(self).spec_block_number() == now,
            old(self).wf() ==> final(self).wf(),
            final(self).allowed() == old(self).allowed(),
            same_confirmations(*old(self), *final(self)),
            same_txns(*old(self), *final(self)),
            same_faults(*old(self), *final(self)),
            same_accounts(*old(self), *final(self)),
            same_balances(*old(self), *final(self)),
            final(self).existential_deposit() == old(self).existential_deposit(),
    {
        self.block_number = now;
    }

    /// The current block number.
    pub fn block_number(&self) -> (r: u64)
        ensures
            r == self.spec_block_number(),
    {
        self.block_number
    }

    /// Endows an account on the modeled ledger; the host's genesis hook.
    pub fn set_free_balance(&mut self, who: AccountId, amount: Balance)
        ensures
            final(self).free(who) == amount,
            forall|w: AccountId| w != who ==> #[trigger] final(self).free(w) == old(self).free(w),
            old(self).wf() ==> final(self).wf(),
            final(self).allowed() == old(self).allowed(),
            same_confirmations(*old(self), *final(self)),
            same_txns(*old(self), *final(self)),
            same_faults(*old(self), *final(self)),
            same_accounts(*old(self), *final(self)),
            final(self).existential_deposit() == old(self).existential_deposit(),
            final(self).spec_block_number() == old(self).spec_block_number(),
    {
        self.balances.set_free_balance(who, amount);
    }

    /// The free balance of an account on the modeled ledger.
    pub fn free_balance(&self, who: AccountId) -> (r: Balance)
        ensures
            r == self.free(who),
    {
        self.balances.free_balance(who)
    }

    /// Whether an account is registered.
    pub fn account_exists_in_registry(&self, who: AccountId) -> (r: bool)
        ensures
            r == self.account_exists(who),
    {
        self.accounts.contains_key(&who)
    }

    /// The consumer count of an account.
    pub fn consumers_of(&self, who: AccountId) -> (r: u32)
        ensures
            r == self.consumers(who),
    {
        match self.accounts.get(&who) {
            Some(c) => *c,
            None => 0,
        }
    }

    /// The confirmed identities recorded under a reference, payee first.
    pub fn get_signers(&self, reference_no: u32) -> (r: Vec<AccountId>)
        ensures
            r@ == confirmation_seq(self.confirmations(reference_no)),
    {
        let c: Confirmations = match self.confirmed_signers.get(&reference_no) {
            Some(existing) => *existing,
            None => Confirmations { payee_slot: None, payer_slot: None },
        };
        let mut out: Vec<AccountId> = Vec::new();
        if let Some(p) = c.payee_slot {
            out.push(p);
        }
        if let Some(q) = c.payer_slot {
            out.push(q);
        }
        proof {
            assert(out@ =~= confirmation_seq(self.confirmations(reference_no)));
        }
        out
    }

    /// The allowed signers a payer recorded at initiation, if any.
    pub fn get_allowed_signers(&self, payer: AccountId) -> (r: Option<AccountSigners>)
        ensures
            match r {
                Some(s) => self.allowed().contains_key(payer) && s == self.allowed()[payer],
                None => !self.allowed().contains_key(payer),
            },
    {
        match self.allowed_signers.get(&payer) {
            Some(s) => Some(*s),
            None => None,
        }
    }

    /// The audit history of an identity, oldest record first.
    pub fn get_account_multitxns(&self, who: AccountId) -> (r: Option<&Vec<CallExecuted>>)
        ensures
            match r {
                Some(log) => log@ == self.txn_log(who) && self.txn_log(who).len() > 0,
                None => self.txn_log(who) == Seq::<CallExecuted>::empty(),
            },
    {
        let found = self.account_multi_txns.get(&who);
        match found {
            Some(log) => {
                if log.len() > 0 {
                    Some(log)
                } else {
                    proof {
                        assert(self.txn_log(who) =~= Seq::<CallExecuted>::empty());
                    }
                    None
                }
            },
            None => None,
        }
    }

    /// How many payments an identity reverted as payer.
    pub fn get_failed_txn_payer(&self, who: AccountId) -> (r: u32)
        ensures
            r == self.payer_faults(who),
    {
        match self.reverted_txn_payer.get(&who) {
            Some(c) => *c,
            None => 0,
        }
    }

    /// How many times an identity misbehaved as payee.
    pub fn get_failed_txn_payee(&self, who: AccountId) -> (r: u32)
        ensures
            r == self.payee_faults(who),
    {
        match self.reverted_txn_payee.get(&who) {
            Some(c) => *c,
            None => 0,
        }
    }

    /// Derives the joint-account identifier of a participant set: the salt,
    /// the payee, the payer and any resolved legal-team identity are hashed,
    /// and the identifier is read from the head of the digest. A pure
    /// function of its argument.
    pub fn derive_multi_id(account_object: AccountSigners) -> (r: AccountId)
        ensures
            r == multi_id_of(account_object),
    {
        let mut preimage: Vec<u8> = Vec::new();
        preimage.push(0x76);
        preimage.push(0x61);
        preimage.push(0x6e);
        preimage.push(0x65);
        preimage.push(0x2f);
        preimage.push(0x73);
        preimage.push(0x61);
        preimage.push(0x6c);
        preimage.push(0x74);
        proof {
            assert(preimage@ =~= salt_bytes());
        }
        let mut payee_bytes = u64_to_le_bytes(account_object.payee);
        preimage.append(&mut payee_bytes);
        let mut payer_bytes = u64_to_le_bytes(account_object.payer);
        preimage.append(&mut payer_bytes);
        match account_object.get_legal_account() {
            Some(legal) => {
                let mut legal_bytes = u64_to_le_bytes(legal);
                preimage.append(&mut legal_bytes);
            },
            None => {},
        }
        proof {
            assert(preimage@ =~= signers_preimage(account_object));
        }
        let digest = blake2b_256(&preimage);
        let head = slice_subrange(digest.as_slice(), 0, 8);
        u64_from_le_bytes(head)
    }

    /// Registers a freshly derived joint account, defensively refusing an
    /// identifier that is somehow already present.
    pub fn create_multi_account(&mut self, multi_id: AccountId) -> (r: Result<(), Error>)
        requires
            old(self).wf(),
        ensures
            final(self).wf(),
            old(self).account_exists(multi_id) ==> r == Err::<(), Error>(Error::MultiAccountExists)
                && *final(self) == *old(self),
            !old(self).account_exists(multi_id) ==> {
                &&& r == Ok::<(), Error>(())
                &&& final(self).account_exists(multi_id)
                &&& final(self).consumers(multi_id) == 1
                &&& forall|w: AccountId|
                    w != multi_id ==> #[trigger] final(self).account_exists(w) == old(
                        self,
                    ).account_exists(w)
                &&& forall|w: AccountId|
                    w != multi_id ==> #[trigger] final(self).consumers(w) == old(self).consumers(w)
                &&& final(self).allowed() == old(self).allowed()
                &&& same_confirmations(*old(self), *final(self))
                &&& same_txns(*old(self), *final(self))
                &&& same_faults(*old(self), *final(self))
                &&& same_balances(*old(self), *final(self))
                &&& final(self).existential_deposit() == old(self).existential_deposit()
                &&& final(self).spec_block_number() == old(self).spec_block_number()
            },
    {
        if self.accounts.contains_key(&multi_id) {
            return Err(Error::MultiAccountExists);
        }
        self.accounts.insert(multi_id, 1);
        Ok(())
    }

    /// Why an initiation fails, if it does: a collision of the derived joint
    /// account, or a refusal of the funding transfer. Success is owed exactly
    /// when neither holds.
    pub open spec fn initiation_result(
        pre: Pallet,
        payer: AccountId,
        payee: AccountId,
        amount: Balance,
    ) -> Result<(), Error> {
        let mid = multi_id_of(pair_signers(payee, payer));
        if pre.account_exists(mid) {
            Err(Error::MultiAccountExists)
        } else {
            match funding_transfer_error(pre, payer, mid, amount) {
                Option::Some(e) => Err(Error::Transfer(e)),
                Option::None => Ok(()),
            }
        }
    }

    /// What a successful initiation leaves behind: the intent recorded under
    /// the payer, the joint account registered, and the amount moved from
    /// the payer into it; everything else untouched.
    pub open spec fn initiated(
        pre: Pallet,
        post: Pallet,
        payer: AccountId,
        payee: AccountId,
        amount: Balance,
    ) -> bool {
        let signers = pair_signers(payee, payer);
        let mid = multi_id_of(signers);
        &&& post.allowed() == pre.allowed().insert(payer, signers)
        &&& post.account_exists(mid)
        &&& post.consumers(mid) == 1
        &&& forall|w: AccountId|
            w != mid ==> #[trigger] post.account_exists(w) == pre.account_exists(w)
        &&& forall|w: AccountId| w != mid ==> #[trigger] post.consumers(w) == pre.consumers(w)
        &&& payer == mid ==> same_balances(pre, post)
        &&& payer != mid ==> {
            &&& post.free(payer) == pre.free(payer) - amount
            &&& post.free(mid) == pre.free(mid) + amount
            &&& forall|w: AccountId|
                w != payer && w != mid ==> #[trigger] post.free(w) == pre.free(w)
        }
        &&& same_confirmations(pre, post)
        &&& same_txns(pre, post)
        &&& same_faults(pre, post)
        &&& post.existential_deposit() == pre.existential_deposit()
        &&& post.spec_block_number() == pre.spec_block_number()
    }

    /// Opens a two-party escrow without a resolver: records the allowed
    /// signers under the payer, registers the derived joint account, and
    /// moves the amount from the payer into it, keeping the payer alive.
    pub fn inner_vane_pay_wo_resolver(
        &mut self,
        payer: AccountId,
        payee: AccountId,
        amount: Balance,
    ) -> (r: Result<(), Error>)
        requires
            old(self).wf(),
        ensures
            final(self).wf(),
            r == Pallet::initiation_result(*old(self), payer, payee, amount),
            r is Err ==> *final(self) == *old(self),
            r is Ok ==> Pallet::initiated(*old(self), *final(self), payer, payee, amount),
    {
        let accounts_obj = AccountSigners::new(payee, payer, None);
        let multi_id = Self::derive_multi_id(accounts_obj);
        if self.accounts.contains_key(&multi_id) {
            return Err(Error::MultiAccountExists);
        }
        match self.balances.transfer(payer, multi_id, amount) {
            Err(e) => {
                return Err(Error::Transfer(e));
            },
            Ok(()) => {},
        }
        self.allowed_signers.insert(payer, accounts_obj);
        self.accounts.insert(multi_id, 1);
        Ok(())
    }

    /// Initiates a payment: the payer must name a payee, and in the base
    /// flow only the no-resolver path is wired to execution; a resolver
    /// selection is acknowledged without effect.
    pub fn vane_pay(
        &mut self,
        payer: AccountId,
        payee: Option<AccountId>,
        amount: Balance,
        resolver: ResolverChoice,
    ) -> (r: Result<(), Error>)
        requires
            old(self).wf(),
        ensures
            final(self).wf(),
            payee is None ==> r == Err::<(), Error>(Error::UnexpectedError) && *final(self) == *old(
                self,
            ),
            payee is Some && resolver != ResolverChoice::NoResolver ==> r == Ok::<(), Error>(())
                && *final(self) == *old(self),
            resolver == ResolverChoice::NoResolver ==> (match payee {
                Option::None => true,
                Option::Some(py) => {
                    &&& r == Pallet::initiation_result(*old(self), payer, py, amount)
                    &&& r is Err ==> *final(self) == *old(self)
                    &&& r is Ok ==> Pallet::initiated(*old(self), *final(self), payer, py, amount)
                },
            }),
    {
        let payee_id = match payee {
            Some(py) => py,
            None => {
                return Err(Error::UnexpectedError);
            },
        };
        match resolver {
            ResolverChoice::NoResolver => self.inner_vane_pay_wo_resolver(payer, payee_id, amount),
            _ => Ok(()),
        }
    }

    /// Records the audit entry of a verified release and moves the whole
    /// escrowed balance from the joint account to the payee.
    pub fn dispatch_transfer_call(
        &mut self,
        proof_hash: Vec<u8>,
        payer: AccountId,
        payee: AccountId,
        allowed_multi_id: AccountId,
        confirmed_multi_id: AccountId,
    ) -> (r: Result<(), Error>)
        requires
            old(self).wf(),
        ensures
            final(self).wf(),
            final(self).allowed() == old(self).allowed(),
            same_confirmations(*old(self), *final(self)),
            same_faults(*old(self), *final(self)),
            same_accounts(*old(self), *final(self)),
            final(self).existential_deposit() == old(self).existential_deposit(),
            final(self).spec_block_number() == old(self).spec_block_number(),
            match release_transfer_error(*old(self), allowed_multi_id, payee) {
                Option::Some(e) => r == Err::<(), Error>(Error::Transfer(e)) && *final(self)
                    == *old(self),
                Option::None => {
                    &&& r == Ok::<(), Error>(())
                    &&& final(self).txn_log(payer).len() == old(self).txn_log(payer).len() + 1
                    &&& final(self).txn_log(payer).drop_last() == old(self).txn_log(payer)
                    &&& final(self).txn_log(payer).last() == (CallExecuted {
                        time: old(self).spec_block_number(),
                        payer,
                        payee,
                        allowed_multi_id,
                        confirmed_multi_id,
                        proof_hash,
                    })
                    &&& forall|w: AccountId|
                        w != payer ==> #[trigger] final(self).txn_log(w) == old(self).txn_log(w)
                    &&& allowed_multi_id == payee ==> same_balances(*old(self), *final(self))
                    &&& allowed_multi_id != payee ==> {
                        &&& final(self).free(allowed_multi_id) == 0
                        &&& final(self).free(payee) == old(self).free(payee) + old(self).free(
                            allowed_multi_id,
                        )
                        &&& forall|w: AccountId|
                            w != allowed_multi_id && w != payee ==> #[trigger] final(self).free(w)
                                == old(self).free(w)
                    }
                },
            },
    {
        match self.balances.transfer_all(allowed_multi_id, payee, false) {
            Err(e) => {
                return Err(Error::Transfer(e));
            },
            Ok(()) => {},
        }
        let record = CallExecuted::new(
            self.block_number,
            payer,
            payee,
            allowed_multi_id,
            confirmed_multi_id,
            proof_hash,
        );
        let mut log: Vec<CallExecuted> = match self.account_multi_txns.remove(&payer) {
            Some(existing) => existing,
            None => Vec::new(),
        };
        log.push(record);
        self.account_multi_txns.insert(payer, log);
        Ok(())
    }

    /// The exact outcome of a confirmation attempt, as a function of the
    /// state before the call: each protocol error comes on exactly the
    /// condition written here, and success is owed on every other input.
    pub open spec fn confirm_result(
        pre: Pallet,
        user_account: AccountId,
        who: Confirm,
        reference_no: u32,
    ) -> Result<(), Error> {
        let c = pre.confirmations(reference_no);
        match c.payee_slot {
            Option::Some(first) => if first == user_account {
                Err(Error::PayeeAlreadyConfirmed)
            } else if c.payer_slot is Some {
                Err(Error::ExceededSigners)
            } else if !pre.allowed().contains_key(user_account) {
                Err(Error::NotAllowedPayeeOrPaymentNotInitialized)
            } else if multi_id_of(pair_signers(first, user_account)) != multi_id_of(
                pre.allowed()[user_account],
            ) {
                Err(Error::FailedToMatchAccounts)
            } else {
                match release_transfer_error(
                    pre,
                    multi_id_of(pre.allowed()[user_account]),
                    first,
                ) {
                    Option::Some(e) => Err(Error::Transfer(e)),
                    Option::None => Ok(()),
                }
            },
            Option::None => match who {
                Confirm::Payer => Err(Error::WaitForPayeeToConfirm),
                Confirm::Payee => Ok(()),
            },
        }
    }

    /// Confirms a payment under a reference number. The first confirmation
    /// must come under the payee role and fills the payee slot; the second,
    /// by any other identity, fills the payer slot and triggers
    /// verification: the joint account derived from the confirmed pair must
    /// equal the one derived from the signers recorded at initiation, and
    /// only then is the whole escrowed balance released to the payee and an
    /// audit record appended under the payer. Every failure leaves the state
    /// exactly as it stood.
    pub fn confirm_pay(&mut self, user_account: AccountId, who: Confirm, reference_no: u32) -> (r:
        Result<(), Error>)
        requires
            old(self).wf(),
        ensures
            final(self).wf(),
            r == Pallet::confirm_result(*old(self), user_account, who, reference_no),
            r is Err ==> *final(self) == *old(self),
            final(self).allowed() == old(self).allowed(),
            same_faults(*old(self), *final(self)),
            same_accounts(*old(self), *final(self)),
            final(self).existential_deposit() == old(self).existential_deposit(),
            final(self).spec_block_number() == old(self).spec_block_number(),
            // An exact match is never rejected as a mismatch: when the pair
            // that confirmed is structurally the intent recorded at
            // initiation, verification succeeds.
            ({
                let c = old(self).confirmations(reference_no);
                &&& c.payee_slot is Some
                &&& payee_entry(c) != user_account
                &&& c.payer_slot is None
                &&& old(self).allowed().contains_key(user_account)
                &&& old(self).allowed()[user_account] == pair_signers(
                    payee_entry(c),
                    user_account,
                )
            }) ==> r != Err::<(), Error>(Error::FailedToMatchAccounts),
            r is Ok && old(self).confirmations(reference_no).payee_slot is None ==> {
                &&& final(self).confirmations(reference_no) == (Confirmations {
                    payee_slot: Option::Some(user_account),
                    payer_slot: Option::None,
                })
                &&& forall|r2: u32|
                    r2 != reference_no ==> #[trigger] final(self).confirmations(r2) == old(
                        self,
                    ).confirmations(r2)
                &&& same_txns(*old(self), *final(self))
                &&& same_balances(*old(self), *final(self))
            },
            r is Ok && old(self).confirmations(reference_no).payee_slot is Some ==> ({
                let first = payee_entry(old(self).confirmations(reference_no));
                let cid = multi_id_of(pair_signers(first, user_account));
                let aid = multi_id_of(old(self).allowed()[user_account]);
                &&& cid == aid
                &&& final(self).confirmations(reference_no) == (Confirmations {
                    payee_slot: Option::Some(first),
                    payer_slot: Option::Some(user_account),
                })
                &&& forall|r2: u32|
                    r2 != reference_no ==> #[trigger] final(self).confirmations(r2) == old(
                        self,
                    ).confirmations(r2)
                &&& final(self).txn_log(user_account).len() == old(self).txn_log(
                    user_account,
                ).len() + 1
                &&& final(self).txn_log(user_account).drop_last() == old(self).txn_log(
                    user_account,
                )
                &&& ({
                    let rec = final(self).txn_log(user_account).last();
                    &&& rec.time == old(self).spec_block_number()
                    &&& rec.payer == user_account
                    &&& rec.payee == first
                    &&& rec.allowed_multi_id == aid
                    &&& rec.confirmed_multi_id == cid
                    &&& rec.proof_hash@ == proof_of(aid, cid)
                })
                &&& forall|w: AccountId|
                    w != user_account ==> #[trigger] final(self).txn_log(w) == old(self).txn_log(w)
                &&& aid == first ==> same_balances(*old(self), *final(self))
                &&& aid != first ==> {
                    &&& final(self).free(aid) == 0
                    &&& final(self).free(first) == old(self).free(first) + old(self).free(aid)
                    &&& forall|w: AccountId|
                        w != aid && w != first ==> #[trigger] final(self).free(w) == old(
                            self,
                        ).free(w)
                }
            }),
    {
        let c: Confirmations = match self.confirmed_signers.get(&reference_no) {
            Some(existing) => *existing,
            None => Confirmations { payee_slot: None, payer_slot: None },
        };
        match c.payee_slot {
            Some(addr) => {
                if addr == user_account {
                    Err(Error::PayeeAlreadyConfirmed)
                } else {
                    match c.payer_slot {
                        Some(_) => Err(Error::ExceededSigners),
                        None => {
                            // The second confirmation: rebuild the pair from the
                            // confirmed identities and verify it against the intent.
                            let confirmed_acc_signers = AccountSigners::new(
                                addr,
                                user_account,
                                None,
                            );
                            let confirmed_multi_id = Self::derive_multi_id(confirmed_acc_signers);
                            let allowed = match self.allowed_signers.get(&user_account) {
                                Some(signers) => *signers,
                                None => {
                                    return Err(Error::NotAllowedPayeeOrPaymentNotInitialized);
                                },
                            };
                            let allowed_multi_id = Self::derive_multi_id(allowed);
                            if confirmed_multi_id == allowed_multi_id {
                                let proof_hash = proof_bytes(allowed_multi_id, confirmed_multi_id);
                                if !self.balances.can_transfer_all(allowed_multi_id, addr) {
                                    return Err(Error::Transfer(TransferError::Overflow));
                                }
                                self.confirmed_signers.insert(
                                    reference_no,
                                    Confirmations {
                                        payee_slot: Some(addr),
                                        payer_slot: Some(user_account),
                                    },
                                );
                                self.dispatch_transfer_call(
                                    proof_hash,
                                    user_account,
                                    addr,
                                    allowed_multi_id,
                                    confirmed_multi_id,
                                )
                            } else {
                                Err(Error::FailedToMatchAccounts)
                            }
                        },
                    }
                }
            },
            None => {
                match who {
                    Confirm::Payer => Err(Error::WaitForPayeeToConfirm),
                    Confirm::Payee => {
                        self.confirmed_signers.insert(
                            reference_no,
                            Confirmations {
                                payee_slot: Some(user_account),
                                payer_slot: None,
                            },
                        );
                        Ok(())
                    },
                }
            },
        }
    }

    /// Increments the misbehaviour counter that corresponds to the reason a
    /// payer reverts: a payee fault is counted against the payee recorded in
    /// the payer's initiated payment, every other reason against the payer.
    /// The return of funds itself is an extension point; only the counter
    /// bookkeeping is performed.
    pub fn revert_fund(&mut self, payer: AccountId, reason: RevertReasons) -> (r: Result<
        (),
        Error,
    >)
        requires
            old(self).wf(),
        ensures
            final(self).wf(),
            final(self).allowed() == old(self).allowed(),
            same_confirmations(*old(self), *final(self)),
            same_txns(*old(self), *final(self)),
            same_accounts(*old(self), *final(self)),
            same_balances(*old(self), *final(self)),
            final(self).existential_deposit() == old(self).existential_deposit(),
            final(self).spec_block_number() == old(self).spec_block_number(),
            (reason == RevertReasons::WrongPayeeAddress || reason == RevertReasons::ChangeOfDecision)
                ==> {
                &&& r == Ok::<(), Error>(())
                &&& final(self).payer_faults(payer) == bumped(old(self).payer_faults(payer))
                &&& forall|w: AccountId|
                    w != payer ==> #[trigger] final(self).payer_faults(w) == old(
                        self,
                    ).payer_faults(w)
                &&& forall|w: AccountId|
                    #[trigger] final(self).payee_faults(w) == old(self).payee_faults(w)
            },
            reason == RevertReasons::PayeeMisbehaviour ==> {
                &&& !old(self).allowed().contains_key(payer) ==> r == Err::<(), Error>(
                    Error::NotAllowedPayeeOrPaymentNotInitialized,
                ) && *final(self) == *old(self)
                &&& old(self).allowed().contains_key(payer) ==> ({
                    let payee = old(self).allowed()[payer].payee;
                    &&& r == Ok::<(), Error>(())
                    &&& final(self).payee_faults(payee) == bumped(old(self).payee_faults(payee))
                    &&& forall|w: AccountId|
                        w != payee ==> #[trigger] final(self).payee_faults(w) == old(
                            self,
                        ).payee_faults(w)
                    &&& forall|w: AccountId|
                        #[trigger] final(self).payer_faults(w) == old(self).payer_faults(w)
                })
            },
    {
        match reason {
            RevertReasons::WrongPayeeAddress | RevertReasons::ChangeOfDecision => {
                let current = match self.reverted_txn_payer.get(&payer) {
                    Some(c) => *c,
                    None => 0,
                };
                let next = if current == u32::MAX {
                    current
                } else {
                    current + 1
                };
                self.reverted_txn_payer.insert(payer, next);
                Ok(())
            },
            RevertReasons::PayeeMisbehaviour => {
                let payee = match self.allowed_signers.get(&payer) {
                    Some(s) => s.payee,
                    None => {
                        return Err(Error::NotAllowedPayeeOrPaymentNotInitialized);
                    },
                };
                let current = match self.reverted_txn_payee.get(&payee) {
                    Some(c) => *c,
                    None => 0,
                };
                let next = if current == u32::MAX {
                    current
                } else {
                    current + 1
                };
                self.reverted_txn_payee.insert(payee, next);
                Ok(())
            },
        }
    }
}

/// The list invariants, exposed: in a well-formed state no reference ever
/// holds a payer confirmation without a payee confirmation — the payee slot
/// always fills first — and no reference ever holds the same identity in
/// both slots.
pub proof fn lemma_confirmations_wf(p: Pallet, reference_no: u32)
    requires
        p.wf(),
    ensures
        p.confirmations(reference_no).wf(),
{
}

/// The digest recorded as the audit proof of a release.
fn proof_bytes(allowed_multi_id: AccountId, confirmed_multi_id: AccountId) -> (r: Vec<u8>)
    ensures
        r@ == proof_of(allowed_multi_id, confirmed_multi_id),
{
    let mut encoded = u64_to_le_bytes(allowed_multi_id);
    let mut second = u64_to_le_bytes(confirmed_multi_id);
    encoded.append(&mut second);
    blake2b_256(&encoded)
}

} // verus!

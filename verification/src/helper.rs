//! Participant identities, resolver choices, and the immutable records that
//! the escrow protocol stores.

use vstd::prelude::*;

verus! {

/// A participant identifier: opaque to the protocol, totally ordered,
/// fixed-width.
pub type AccountId = u64;

/// The balance unit of the underlying ledger.
pub type Balance = u128;

/// The arbitrator actually bound into a derivation, carrying the legal-team
/// identity where one exists.
#[derive(Clone, Copy, Debug)]
pub enum Resolver {
    /// A legal team authorized to arbitrate, identified by its account.
    LegalTeam(AccountId),
    /// A governance vote decides the dispute.
    Governance,
    /// Both a legal team and governance take part.
    Both(AccountId),
}

/// The dispute-resolution method a payer selects at initiation; a selector
/// only, carrying no arbitrator identity.
#[derive(Clone, Copy, Debug, PartialEq, Eq, Structural)]
pub enum ResolverChoice {
    LegalTeam,
    Governance,
    NoResolver,
}

/// The role under which an identity confirms a payment.
#[derive(Clone, Copy, Debug, PartialEq, Eq, Structural)]
pub enum Confirm {
    Payer,
    Payee,
}

/// Why a payer asks for a payment to be reverted.
#[derive(Clone, Copy, Debug, PartialEq, Eq, Structural)]
pub enum RevertReasons {
    /// The payer must show a proof of a wrong address; the fee is refunded.
    WrongPayeeAddress,
    /// A personal change of mind; counted against the payer.
    ChangeOfDecision,
    /// The payee is at fault; counted against the payee.
    PayeeMisbehaviour,
}

/// A payee's reason to push a payment through when the payer misbehaves.
#[derive(Clone, Copy, Debug, PartialEq, Eq, Structural)]
pub enum PayeeReason {
    PayerMisbehaviour,
}

/// The participant set of one payment: payee first, payer second, and an
/// optional resolver. The field order is significant: it feeds byte-for-byte
/// into the account derivation.
#[derive(Clone, Copy, Debug)]
pub struct AccountSigners {
    pub payee: AccountId,
    pub payer: AccountId,
    pub resolver: Option<Resolver>,
}

impl AccountSigners {
    pub fn new(payee: AccountId, payer: AccountId, resolver: Option<Resolver>) -> (r: AccountSigners)
        ensures
            r == (AccountSigners { payee, payer, resolver }),
    {
        AccountSigners { payee, payer, resolver }
    }

    pub fn get_payer(&self) -> (r: AccountId)
        ensures
            r == self.payer,
    {
        self.payer
    }

    pub fn get_payee(&self) -> (r: AccountId)
        ensures
            r == self.payee,
    {
        self.payee
    }

    pub fn get_resolver(&self) -> (r: &Option<Resolver>)
        ensures
            r == self.resolver,
    {
        &self.resolver
    }

    /// The arbitrator identity that takes part in derivation: only the
    /// `LegalTeam` variant supplies one.
    pub open spec fn spec_legal_account(self) -> Option<AccountId> {
        match self.resolver {
            Option::Some(Resolver::LegalTeam(account)) => Option::Some(account),
            _ => Option::None,
        }
    }

    pub fn get_legal_account(&self) -> (r: Option<AccountId>)
        ensures
            r == self.spec_legal_account(),
    {
        if let Some(Resolver::LegalTeam(account)) = &self.resolver {
            Some(*account)
        } else {
            None
        }
    }
}

/// The audit record of one executed release, binding the two independently
/// derived joint-account identifiers together with a hash; immutable once
/// created.
#[derive(Debug)]
pub struct CallExecuted {
    pub time: u64,
    pub payer: AccountId,
    pub payee: AccountId,
    pub allowed_multi_id: AccountId,
    pub confirmed_multi_id: AccountId,
    pub proof_hash: Vec<u8>,
}

impl CallExecuted {
    pub fn new(
        time: u64,
        payer: AccountId,
        payee: AccountId,
        allowed_multi_id: AccountId,
        confirmed_multi_id: AccountId,
        proof_hash: Vec<u8>,
    ) -> (r: CallExecuted)
        ensures
            r == (CallExecuted { time, payer, payee, allowed_multi_id, confirmed_multi_id, proof_hash }),
    {
        CallExecuted { time, payer, payee, allowed_multi_id, confirmed_multi_id, proof_hash }
    }
}

} // verus!

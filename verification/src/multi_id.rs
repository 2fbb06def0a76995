//! The mathematical model of joint-account derivation: the byte sequence a
//! participant set hashes to, the identifier read back from the digest, and
//! the laws that hold of them.

use vstd::prelude::*;
use vstd::bytes::*;
use crate::hashing::blake2b256_of;
use crate::helper::{AccountId, AccountSigners};

verus! {

/// The fixed domain-separation salt fed first into every derivation
/// (the bytes of the ASCII text `vane/salt`).
pub open spec fn salt_bytes() -> Seq<u8> {
    seq![0x76u8, 0x61u8, 0x6eu8, 0x65u8, 0x2fu8, 0x73u8, 0x61u8, 0x6cu8, 0x74u8]
}

/// The byte sequence hashed to derive a joint account: the salt, the payee,
/// the payer, and the legal-team identity if and only if one is resolved,
/// each identity as eight little-endian bytes.
pub open spec fn signers_preimage(s: AccountSigners) -> Seq<u8> {
    salt_bytes() + spec_u64_to_le_bytes(s.payee) + spec_u64_to_le_bytes(s.payer) + (match s.spec_legal_account() {
        Option::Some(account) => spec_u64_to_le_bytes(account),
        Option::None => Seq::<u8>::empty(),
    })
}

/// The joint-account identifier of a participant set: the first eight bytes
/// of the digest of its preimage, read little-endian.
pub open spec fn multi_id_of(s: AccountSigners) -> u64 {
    spec_u64_from_le_bytes(blake2b256_of(signers_preimage(s)).subrange(0, 8))
}

/// The audit proof recorded at release: the digest over the two derived
/// identifiers, allowed first, confirmed second.
pub open spec fn proof_of(allowed_multi_id: u64, confirmed_multi_id: u64) -> Seq<u8> {
    blake2b256_of(
        spec_u64_to_le_bytes(allowed_multi_id) + spec_u64_to_le_bytes(confirmed_multi_id),
    )
}

/// The two-party participant set recorded when no resolver is bound.
pub open spec fn pair_signers(payee: AccountId, payer: AccountId) -> AccountSigners {
    AccountSigners { payee, payer, resolver: Option::None }
}

/// Determinism: the derived identifier is a pure function of the participant
/// set, so structurally equal sets always derive the same joint account.
pub proof fn lemma_derive_deterministic(a: AccountSigners, b: AccountSigners)
    requires
        a == b,
    ensures
        multi_id_of(a) == multi_id_of(b),
{
}

/// Order sensitivity: payee and payer are not interchangeable. For distinct
/// identities, swapping the two roles changes the hashed byte sequence.
pub proof fn lemma_preimage_order_sensitive(a: AccountId, b: AccountId)
    requires
        a != b,
    ensures
        signers_preimage(pair_signers(a, b)) != signers_preimage(pair_signers(b, a)),
{
    lemma_auto_spec_u64_to_from_le_bytes();
    let s1 = signers_preimage(pair_signers(a, b));
    let s2 = signers_preimage(pair_signers(b, a));
    assert(s1.subrange(9, 17) =~= spec_u64_to_le_bytes(a));
    assert(s2.subrange(9, 17) =~= spec_u64_to_le_bytes(b));
    if s1 == s2 {
        assert(spec_u64_from_le_bytes(spec_u64_to_le_bytes(a)) == spec_u64_from_le_bytes(
            spec_u64_to_le_bytes(b),
        ));
        assert(false);
    }
}

} // verus!

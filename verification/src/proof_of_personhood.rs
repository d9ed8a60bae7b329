//! Time-bounded proof-of-personhood attestations issued by a trusted
//! attester.
use vstd::prelude::*;
use crate::types::AccountId;

verus! {

/// An attester's statement that `subject` is a distinct person, valid
/// until `expires_at`.
#[derive(Clone, Copy, Debug, PartialEq, Eq, Structural)]
pub struct PersonhoodAttestation {
    pub subject: AccountId,
    pub attester: AccountId,
    pub issued_at: u64,
    pub expires_at: u64,
}

/// Whether the attestation has not yet expired at ledger time `now`.
pub fn is_attestation_valid(now: u64, attestation: &PersonhoodAttestation) -> (valid: bool)
    ensures
        valid == (now < attestation.expires_at),
{
    now < attestation.expires_at
}

} // verus!

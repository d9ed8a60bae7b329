//! Hash commitments to audit entries: the entry's integrity can be recorded
//! on-chain and checked later against the disclosed data.
use vstd::prelude::*;
use crate::types::{Hash32, hash_eq};
use crate::hashing::{sha256, sha256_digest};

verus! {

/// A commitment to an audit entry: the SHA-256 of its data and when it was
/// recorded.
#[derive(Clone, Copy, Debug)]
pub struct AuditCommitment {
    pub commitment: Hash32,
    pub committed_at: u64,
}

/// Commit to an audit entry's data at ledger time `now`.
pub fn commit_audit_entry(env: &soroban_sdk::Env, data: &Vec<u8>, now: u64) -> (c: AuditCommitment)
    ensures
        c.commitment@ == sha256_digest(data@),
        c.committed_at == now,
{
    AuditCommitment { commitment: sha256(env, data), committed_at: now }
}

/// Whether `data` hashes to the recorded commitment.
pub fn verify_audit_commitment(env: &soroban_sdk::Env, commitment: &AuditCommitment, data: &Vec<u8>) -> (ok: bool)
    ensures
        ok == (sha256_digest(data@) == commitment.commitment@),
{
    let recomputed = sha256(env, data);
    matches_commitment(commitment, &recomputed)
}

/// Whether a recomputed digest equals the recorded commitment.
pub fn matches_commitment(commitment: &AuditCommitment, digest: &Hash32) -> (ok: bool)
    ensures
        ok == (digest@ == commitment.commitment@),
{
    hash_eq(digest, &commitment.commitment)
}

/// The data an entry was committed with always verifies against it.
pub proof fn law_commitment_opens_to_its_data(c: AuditCommitment, data: Seq<u8>)
    requires
        c.commitment@ == sha256_digest(data),
    ensures
        sha256_digest(data) == c.commitment@,
{
}

} // verus!

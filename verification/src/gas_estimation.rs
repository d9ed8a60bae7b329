//! Heuristic cost estimates returned by view functions.
use vstd::prelude::*;

verus! {

/// A heuristic cost estimate for a protocol operation; never mutates state.
#[derive(Clone, Copy, Debug, PartialEq, Eq, Structural)]
pub struct GasEstimate {
    /// Estimated CPU instructions the operation will consume.
    pub base_instructions: u64,
    /// Estimated number of storage reads.
    pub storage_reads: u32,
    /// Estimated number of storage writes.
    pub storage_writes: u32,
    /// Estimated number of cross-contract invocations.
    pub cross_contract_calls: u32,
}

} // verus!

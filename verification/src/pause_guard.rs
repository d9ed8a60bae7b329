//! The pause check that payment-path entry points run first: a paused
//! platform refuses the call, which rolls the transaction back.
use vstd::prelude::*;

verus! {

/// Error raised when the platform is paused.
#[derive(Clone, Copy, Debug, PartialEq, Eq, Structural)]
pub struct ContractPaused;

impl ContractPaused {
    /// The message a paused call aborts with.
    pub fn msg() -> (m: &'static str)
        ensures
            m@ == "Contract is paused"@,
    {
        "Contract is paused"
    }
}

/// Refuse the call when the pause guardian reports the platform paused.
pub fn require_not_paused(paused: bool) -> (r: Result<(), ContractPaused>)
    ensures
        paused <==> r == Err::<(), ContractPaused>(ContractPaused),
        !paused <==> r is Ok,
{
    if paused { Err(ContractPaused) } else { Ok(()) }
}

} // verus!

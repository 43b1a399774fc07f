use vstd::prelude::*;

verus! {

/// A failure of one step of the swap settlement protocol.
///
/// Callers of the public entry point only ever see a boolean outcome; these
/// values classify why a continuation step failed, at the join boundaries
/// where the results of remote calls are reconciled.
#[derive(Clone, Copy, Debug, PartialEq, Eq, Structural)]
pub enum SwapError {
    /// A remote ledger call failed or was rejected by the remote service.
    RemoteCall,
    /// A checked product or sum of balances exceeded the numeric range.
    ArithmeticOverflow,
    /// A deposit at least as large as the pool's own balance of the
    /// deposited token: the pricing formula is not defined for it.
    InvariantViolation,
}

} // verus!

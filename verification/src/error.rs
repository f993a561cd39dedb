//! Why an operation was refused.

use vstd::prelude::*;

verus! {

/// The reasons for which an operation is refused. A refused operation leaves
/// every pool and position as it found them.
#[derive(Clone, Copy, Debug, PartialEq, Eq, Structural)]
pub enum CustomError {
    /// A withdrawal was asked for before the position's lockup had run out.
    LockupNotEnded,
    /// A rate or multiplier change was asked for without administrator rights.
    Unauthorized,
    /// A deposit of nothing.
    InvalidAmount,
    /// A product, sum or difference in the bookkeeping left the range of its type.
    ArithmeticOverflow,
    /// The ledger would not move the funds.
    TransferFailed,
    /// The pool is already set up.
    PoolAlreadyInitialized,
    /// The pool is not set up yet.
    PoolNotFound,
    /// The depositor has no position.
    PositionNotFound,
}

} // verus!

use vstd::prelude::*;

verus! {

/// Why the pool refuses an instruction.
#[derive(Clone, Copy, Debug, PartialEq, Eq, Structural)]
pub enum AmmError {
    /// The pool is locked: no deposit, withdrawal or swap is taken.
    PoolLocked,
    /// An amount that must be positive is zero.
    InvalidAmount,
    /// The amounts fall outside the bounds the user gave.
    SlippageExceeded,
    /// An intermediate product does not fit its integer type.
    Overflow,
    /// The curve refused to price the request.
    CurveError,
    /// The user holds fewer LP tokens than the withdrawal burns.
    Insufficientbalance,
}

} // verus!

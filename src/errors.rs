use vstd::prelude::*;

verus! {

/// Every way in which an operation of the market maker can be rejected.
/// A rejected operation leaves all state as it was.
#[derive(Debug, Clone, Copy, PartialEq, Eq, Structural)]
pub enum CustomError {
    InvalidAmount,
    MathOverflow,
    OverflowOrUnderflowOccurred,
    SlippageExceeded,
    InsufficientPosition,
    InsufficientShares,
    FailedToAddLiquidity,
    FailedToRemoveLiquidity,
    FailedToAllocateShares,
    FailedToDeallocateShares,
    Unauthorized,
    InvalidFee,
    InvalidTaxBps,
}

} // verus!

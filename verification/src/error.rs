use vstd::prelude::*;

verus! {

/// Defined, recoverable errors returned by the looping contract.
///
/// Each error has a stable numeric code (see [`LoopingError::code`]), which is
/// what a caller observes as the contract error code.
#[derive(Copy, Clone, Debug, PartialEq, Eq, Structural, PartialOrd, Ord)]
pub enum LoopingError {
    /// Collateral amount must be positive.
    InvalidCollateral,
    /// Debt amount must be non-negative.
    InvalidDebt,
    /// Leverage must be 1x-5x (100-500).
    InvalidLeverage,
    /// No position exists for the given id.
    PositionNotFound,
    /// The position is already closed.
    PositionAlreadyClosed,
    /// The caller is not the position owner.
    NotPositionOwner,
}

/// The contract error code of each error.
pub open spec fn error_code(e: LoopingError) -> u32 {
    match e {
        LoopingError::InvalidCollateral => 1,
        LoopingError::InvalidDebt => 2,
        LoopingError::InvalidLeverage => 3,
        LoopingError::PositionNotFound => 4,
        LoopingError::PositionAlreadyClosed => 5,
        LoopingError::NotPositionOwner => 6,
    }
}

impl LoopingError {
    /// The numeric contract error code of this error.
    pub fn code(&self) -> (c: u32)
        ensures
            *self == LoopingError::InvalidCollateral ==> c == 1,
            *self == LoopingError::InvalidDebt ==> c == 2,
            *self == LoopingError::InvalidLeverage ==> c == 3,
            *self == LoopingError::PositionNotFound ==> c == 4,
            *self == LoopingError::PositionAlreadyClosed ==> c == 5,
            *self == LoopingError::NotPositionOwner ==> c == 6,
            c == error_code(*self),
    {
        match self {
            LoopingError::InvalidCollateral => 1,
            LoopingError::InvalidDebt => 2,
            LoopingError::InvalidLeverage => 3,
            LoopingError::PositionNotFound => 4,
            LoopingError::PositionAlreadyClosed => 5,
            LoopingError::NotPositionOwner => 6,
        }
    }
}

/// Distinct errors have distinct codes, so a code names exactly one error.
pub proof fn lemma_error_code_injective(a: LoopingError, b: LoopingError)
    ensures
        error_code(a) == error_code(b) ==> a == b,
{
}

} // verus!

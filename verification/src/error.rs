//! Errors raised by the pool and by the constant-product curve.
use vstd::prelude::*;

verus! {

/// Failures of the constant-product curve computation.
#[derive(Debug, Clone, Copy, PartialEq, Eq, Structural)]
pub enum CurveError {
    InvalidPrecision,
    Overflow,
    Underflow,
    InvalidFeeAmount,
    InsufficientBalance,
    ZeroBalance,
    SlippageLimitExceeded,
}

/// Errors with which a pool instruction is refused.
#[derive(Debug, Clone, Copy, PartialEq, Eq, Structural)]
pub enum AmmError {
    PoolLocked,
    InvalidAmount,
    SlippageExceeded,
    InvalidPrecision,
    Overflow,
    Underflow,
    InvalidFee,
    InsufficientBalance,
    ZeroBalance,
}

/// The pool error that stands for a curve failure.
pub open spec fn curve_error_to_amm(e: CurveError) -> AmmError {
    match e {
        CurveError::InvalidPrecision => AmmError::InvalidPrecision,
        CurveError::Overflow => AmmError::Overflow,
        CurveError::Underflow => AmmError::Underflow,
        CurveError::InvalidFeeAmount => AmmError::InvalidFee,
        CurveError::InsufficientBalance => AmmError::InsufficientBalance,
        CurveError::ZeroBalance => AmmError::ZeroBalance,
        CurveError::SlippageLimitExceeded => AmmError::SlippageExceeded,
    }
}

impl From<CurveError> for AmmError {
    fn from(e: CurveError) -> (r: AmmError) {
        match e {
            CurveError::InvalidPrecision => AmmError::InvalidPrecision,
            CurveError::Overflow => AmmError::Overflow,
            CurveError::Underflow => AmmError::Underflow,
            CurveError::InvalidFeeAmount => AmmError::InvalidFee,
            CurveError::InsufficientBalance => AmmError::InsufficientBalance,
            CurveError::ZeroBalance => AmmError::ZeroBalance,
            CurveError::SlippageLimitExceeded => AmmError::SlippageExceeded,
        }
    }
}

impl vstd::std_specs::convert::FromSpecImpl<CurveError> for AmmError {
    open spec fn obeys_from_spec() -> bool {
        true
    }

    open spec fn from_spec(v: CurveError) -> AmmError {
        curve_error_to_amm(v)
    }
}

} // verus!

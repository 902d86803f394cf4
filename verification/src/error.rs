use vstd::prelude::*;
use vstd::std_specs::convert::FromSpecImpl;

verus! {

/// The errors the pool's instructions report, in the order that fixes their codes.
#[derive(Debug, Clone, Copy, PartialEq, Eq, Structural)]
pub enum AmmError {
    InvalidFee,
    PoolLocked,
    Unauthorized,
    ZeroAmount,
    SlippageExceeded,
    InsufficientLiquidity,
    Overflow,
    Underflow,
    InvalidPrecision,
    InsufficientBalance,
    ZeroBalance,
}

/// The ways in which the constant-product pricing can fail.
#[derive(Debug, Clone, Copy, PartialEq, Eq, Structural)]
pub enum CurveError {
    InvalidPrecision,
    Overflow,
    Underflow,
    InvalidFeeAmount,
    InsufficientBalance,
    ZeroBalance,
    SlippageLimitExceeded,
}

/// How a pricing failure is reported to the caller of an instruction.
pub open spec fn curve_error_to_amm(error: CurveError) -> AmmError {
    match error {
        CurveError::InvalidPrecision => AmmError::InvalidPrecision,
        CurveError::Overflow => AmmError::Overflow,
        CurveError::Underflow => AmmError::Underflow,
        CurveError::InvalidFeeAmount => AmmError::InvalidFee,
        CurveError::InsufficientBalance => AmmError::InsufficientBalance,
        CurveError::ZeroBalance => AmmError::ZeroBalance,
        CurveError::SlippageLimitExceeded => AmmError::SlippageExceeded,
    }
}

impl From<CurveError> for AmmError {
    fn from(error: CurveError) -> (r: AmmError) {
        match error {
            CurveError::InvalidPrecision => AmmError::InvalidPrecision,
            CurveError::Overflow => AmmError::Overflow,
            CurveError::Underflow => AmmError::Underflow,
            CurveError::InvalidFeeAmount => AmmError::InvalidFee,
            CurveError::InsufficientBalance => AmmError::InsufficientBalance,
            CurveError::ZeroBalance => AmmError::ZeroBalance,
            CurveError::SlippageLimitExceeded => AmmError::SlippageExceeded,
        }
    }
}

impl FromSpecImpl<CurveError> for AmmError {
    open spec fn obeys_from_spec() -> bool {
        true
    }

    open spec fn from_spec(v: CurveError) -> AmmError {
        curve_error_to_amm(v)
    }
}

impl AmmError {
    /// The text of each error's message.
    pub open spec fn spec_message(self) -> Seq<char> {
        match self {
            AmmError::InvalidFee => "LP fee plus protocol fee cannot exceed 100% (10,000 bps)."@,
            AmmError::PoolLocked => "This pool is locked."@,
            AmmError::Unauthorized => "Only the pool admin can do this."@,
            AmmError::ZeroAmount => "Amount must be greater than zero."@,
            AmmError::SlippageExceeded => "Slippage limit exceeded."@,
            AmmError::InsufficientLiquidity => "Pool does not have enough liquidity."@,
            AmmError::Overflow => "Overflow detected."@,
            AmmError::Underflow => "Underflow detected."@,
            AmmError::InvalidPrecision => "Invalid precision."@,
            AmmError::InsufficientBalance => "Insufficient balance."@,
            AmmError::ZeroBalance => "Zero balance."@,
        }
    }

    /// The message that accompanies the error.
    pub fn message(&self) -> (r: &'static str)
        ensures
            r@ == self.spec_message(),
    {
        match self {
            AmmError::InvalidFee => "LP fee plus protocol fee cannot exceed 100% (10,000 bps).",
            AmmError::PoolLocked => "This pool is locked.",
            AmmError::Unauthorized => "Only the pool admin can do this.",
            AmmError::ZeroAmount => "Amount must be greater than zero.",
            AmmError::SlippageExceeded => "Slippage limit exceeded.",
            AmmError::InsufficientLiquidity => "Pool does not have enough liquidity.",
            AmmError::Overflow => "Overflow detected.",
            AmmError::Underflow => "Underflow detected.",
            AmmError::InvalidPrecision => "Invalid precision.",
            AmmError::InsufficientBalance => "Insufficient balance.",
            AmmError::ZeroBalance => "Zero balance.",
        }
    }
}

} // verus!

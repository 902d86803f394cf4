use vstd::prelude::*;

verus! {

/// What the constant-product curve answers for a swap: how much the user
/// pays in and how much the pool pays out.
#[derive(Debug, Clone, Copy, PartialEq, Eq, Structural)]
pub struct SwapResult {
    pub deposit: u64,
    pub withdraw: u64,
}

/// What the constant-product curve answers for a change of liquidity: an
/// amount of token A (`x`) and of token B (`y`).
#[derive(Debug, Clone, Copy, PartialEq, Eq, Structural)]
pub struct XYAmounts {
    pub x: u64,
    pub y: u64,
}

} // verus!

use vstd::prelude::*;

verus! {

/// Seed of the pool account's address: the bytes of "pool".
pub const SEED: [u8; 4] = [0x70, 0x6f, 0x6f, 0x6c];

/// Seed of the LP mint's address: the bytes of "lp".
pub const LP_SEED: [u8; 2] = [0x6c, 0x70];

/// Basis points in one whole: fees are counted in ten-thousandths.
pub const BPS: u64 = 10_000;

/// Decimals of the LP token.
pub const LP_DECIMALS: u8 = 6;

/// Fixed-point scale handed to the curve for liquidity ratios.
pub const PRECISION: u32 = 1_000_000;

} // verus!

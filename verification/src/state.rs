use vstd::prelude::*;

use crate::constants::BPS;

verus! {

/// A 32-byte account address.
pub type Address = [u8; 32];

/// Whether two addresses are the same, byte for byte.
pub fn same_address(a: &Address, b: &Address) -> (r: bool)
    ensures
        r == (a@ == b@),
{
    let mut i: usize = 0;
    while i < 32
        invariant
            0 <= i <= 32,
            a@.len() == 32,
            b@.len() == 32,
            forall|j: int| 0 <= j < i ==> a@[j] == b@[j],
        decreases 32 - i,
    {
        if a[i] != b[i] {
            return false;
        }
        i = i + 1;
    }
    assert(a@ =~= b@);
    true
}

/// The pool's configuration, as stored in its account.
#[derive(Clone, Copy, Debug)]
pub struct Pool {
    /// Seed so one program can host many pools.
    pub seed: u64,
    /// Creator; the only key allowed to toggle the lock.
    pub admin: Address,
    /// Wallet whose token accounts receive the protocol fee.
    pub treasury: Address,
    /// Token A.
    pub mint_a: Address,
    /// Token B.
    pub mint_b: Address,
    /// Swap fee kept in the vaults for liquidity providers (basis points).
    pub lp_fee_bps: u16,
    /// Swap fee forwarded to the treasury (basis points).
    pub protocol_fee_bps: u16,
    /// If true, adding liquidity and swapping are refused.
    pub locked: bool,
    /// Bump seed of the pool account.
    pub pool_bump: u8,
    /// Bump seed of the LP mint.
    pub lp_bump: u8,
}

impl Pool {
    /// A pool is well formed when its two fees together are at most one whole.
    pub open spec fn wf(self) -> bool {
        self.lp_fee_bps + self.protocol_fee_bps <= BPS
    }

    /// The total swap fee, in basis points.
    pub open spec fn total_fee_bps(self) -> int {
        self.lp_fee_bps + self.protocol_fee_bps
    }

    /// The same pool with its lock flipped.
    pub open spec fn toggled(self) -> Pool {
        Pool { locked: !self.locked, ..self }
    }

    /// Every field but the lock is the same in both pools.
    pub open spec fn same_but_lock(self, other: Pool) -> bool {
        &&& self.seed == other.seed
        &&& self.admin@ == other.admin@
        &&& self.treasury@ == other.treasury@
        &&& self.mint_a@ == other.mint_a@
        &&& self.mint_b@ == other.mint_b@
        &&& self.lp_fee_bps == other.lp_fee_bps
        &&& self.protocol_fee_bps == other.protocol_fee_bps
        &&& self.pool_bump == other.pool_bump
        &&& self.lp_bump == other.lp_bump
    }
}

} // verus!

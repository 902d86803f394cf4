use vstd::prelude::*;

use crate::constants::BPS;
use crate::error::AmmError;
use crate::state::{Address, Pool};

verus! {

/// The bump seeds found for the pool account and the LP mint.
#[derive(Clone, Copy, Debug)]
pub struct InitPoolBumps {
    pub pool: u8,
    pub mint_lp: u8,
}

/// What creating a pool reads and writes: the addresses it records and the
/// pool account it fills in.
#[derive(Clone, Copy, Debug)]
pub struct InitPool {
    pub admin: Address,
    pub mint_a: Address,
    pub mint_b: Address,
    pub treasury: Address,
    pub pool: Pool,
}

impl InitPool {
    /// The pool that `init_pool` records for these arguments.
    pub open spec fn new_pool(
        self,
        seed: u64,
        lp_fee_bps: u16,
        protocol_fee_bps: u16,
        bumps: InitPoolBumps,
    ) -> Pool {
        Pool {
            seed,
            admin: self.admin,
            treasury: self.treasury,
            mint_a: self.mint_a,
            mint_b: self.mint_b,
            lp_fee_bps,
            protocol_fee_bps,
            locked: false,
            pool_bump: bumps.pool,
            lp_bump: bumps.mint_lp,
        }
    }

    /// Records a new, unlocked pool with its admin, treasury, mints, fees and
    /// bumps. Fees that add up to more than 100% are refused.
    pub fn init_pool(
        &mut self,
        seed: u64,
        lp_fee_bps: u16,
        protocol_fee_bps: u16,
        bumps: InitPoolBumps,
    ) -> (r: Result<(), AmmError>)
        ensures
            lp_fee_bps + protocol_fee_bps > BPS <==> r == Err::<(), AmmError>(
                AmmError::InvalidFee,
            ),
            lp_fee_bps + protocol_fee_bps <= BPS <==> r is Ok,
            r is Ok ==> final(self).pool == old(self).new_pool(
                seed,
                lp_fee_bps,
                protocol_fee_bps,
                bumps,
            ),
            r is Ok ==> final(self).pool.wf() && !final(self).pool.locked,
            r is Err ==> *final(self) == *old(self),
            final(self).admin == old(self).admin,
            final(self).mint_a == old(self).mint_a,
            final(self).mint_b == old(self).mint_b,
            final(self).treasury == old(self).treasury,
    {
        if !(lp_fee_bps as u64 + protocol_fee_bps as u64 <= BPS) {
            return Err(AmmError::InvalidFee);
        }
        self.pool = Pool {
            seed,
            admin: self.admin,
            treasury: self.treasury,
            mint_a: self.mint_a,
            mint_b: self.mint_b,
            lp_fee_bps,
            protocol_fee_bps,
            locked: false,
            pool_bump: bumps.pool,
            lp_bump: bumps.mint_lp,
        };
        Ok(())
    }
}

} // verus!

use vstd::prelude::*;

use crate::constants::BPS;
use crate::error::AmmError;
use crate::instructions::init_pool::{InitPool, InitPoolBumps};
use crate::state::{same_address, Address, Pool};

verus! {

/// What toggling the lock reads and writes: the signer and the pool.
#[derive(Clone, Copy, Debug)]
pub struct ToggleLock {
    pub admin: Address,
    pub pool: Pool,
}

impl ToggleLock {
    /// Flips the pool's lock. Only the pool's admin may do this.
    pub fn toggle_lock(&mut self) -> (r: Result<(), AmmError>)
        ensures
            old(self).admin@ != old(self).pool.admin@ <==> r == Err::<(), AmmError>(
                AmmError::Unauthorized,
            ),
            old(self).admin@ == old(self).pool.admin@ <==> r is Ok,
            r is Ok ==> final(self).pool == old(self).pool.toggled(),
            r is Err ==> final(self).pool == old(self).pool,
            final(self).pool == after_toggle(old(self).pool, old(self).admin),
            final(self).admin == old(self).admin,
    {
        if !same_address(&self.admin, &self.pool.admin) {
            return Err(AmmError::Unauthorized);
        }
        self.pool.locked = !self.pool.locked;
        Ok(())
    }
}

/// The pool after `signer` asks to toggle its lock: flipped when the signer
/// is the admin, unchanged otherwise.
pub open spec fn after_toggle(pool: Pool, signer: Address) -> Pool {
    if signer@ == pool.admin@ {
        pool.toggled()
    } else {
        pool
    }
}

/// The pool after a sequence of signers each ask to toggle its lock.
pub open spec fn after_toggles(pool: Pool, signers: Seq<Address>) -> Pool
    decreases signers.len(),
{
    if signers.len() == 0 {
        pool
    } else {
        after_toggle(after_toggles(pool, signers.drop_last()), signers.last())
    }
}

/// Toggling twice gives the pool back as it was, and toggling keeps a
/// well-formed pool well formed.
pub proof fn lemma_toggle_twice(pool: Pool)
    ensures
        pool.toggled().toggled() == pool,
        pool.toggled().locked != pool.locked,
        pool.toggled().same_but_lock(pool),
        pool.wf() ==> pool.toggled().wf(),
{
}

/// Only the lock ever changes: whatever signers toggle the lock, and however
/// often, the pool keeps every other field and stays well formed. (Adding
/// and removing liquidity and swapping read the pool and never write it.)
pub proof fn lemma_config_fixed(pool: Pool, signers: Seq<Address>)
    ensures
        after_toggles(pool, signers).same_but_lock(pool),
        pool.wf() ==> after_toggles(pool, signers).wf(),
    decreases signers.len(),
{
    if signers.len() > 0 {
        lemma_config_fixed(pool, signers.drop_last());
    }
}

/// From the moment a pool is created, whatever toggles follow, it keeps the
/// seed, admin, treasury, mints, fees and bumps that `init_pool` recorded,
/// and its fees still add up to at most one whole.
pub proof fn lemma_config_fixed_since_init(
    accounts: InitPool,
    seed: u64,
    lp_fee_bps: u16,
    protocol_fee_bps: u16,
    bumps: InitPoolBumps,
    signers: Seq<Address>,
)
    requires
        lp_fee_bps + protocol_fee_bps <= BPS,
    ensures
        ({
            let created = accounts.new_pool(seed, lp_fee_bps, protocol_fee_bps, bumps);
            let now = after_toggles(created, signers);
            &&& now.wf()
            &&& now.seed == seed
            &&& now.admin@ == accounts.admin@
            &&& now.treasury@ == accounts.treasury@
            &&& now.mint_a@ == accounts.mint_a@
            &&& now.mint_b@ == accounts.mint_b@
            &&& now.lp_fee_bps == lp_fee_bps
            &&& now.protocol_fee_bps == protocol_fee_bps
            &&& now.pool_bump == bumps.pool
            &&& now.lp_bump == bumps.mint_lp
        }),
{
    let created = accounts.new_pool(seed, lp_fee_bps, protocol_fee_bps, bumps);
    lemma_config_fixed(created, signers);
}

} // verus!

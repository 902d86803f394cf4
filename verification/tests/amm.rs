use amm_q3_2026::{
    AddLiquidity, Address, AmmError, CurveError, InitPool, InitPoolBumps, Movement, Pool,
    RemoveLiquidity, Swap, SwapResult, ToggleLock, TokenAccount, XYAmounts, BPS, LP_DECIMALS,
    LP_SEED, PRECISION, SEED,
};

const IX_SEED: u64 = 7;
const LP_FEE_BPS: u16 = 25;
const PROTOCOL_FEE_BPS: u16 = 5;

const WALLET: u64 = 1_000_000_000; // what the user holds of each token
const POOL_A: u64 = 100_000_000; // first deposit: 100 A
const POOL_B: u64 = 400_000_000; // first deposit: 400 B, so the pool is 1:4
const POOL_LP: u64 = 200_000_000; // LP minted for that first deposit

const OWNER: Address = [1; 32];
const TREASURY: Address = [2; 32];
const MINT_A: Address = [3; 32];
const MINT_B: Address = [4; 32];
const STRANGER: Address = [9; 32];

/// Balances of every account an instruction touches, and the LP supply.
#[derive(Clone, Copy, Debug, PartialEq, Eq)]
struct Ledger {
    user_a: u64,
    user_b: u64,
    user_lp: u64,
    vault_a: u64,
    vault_b: u64,
    treasury_a: u64,
    treasury_b: u64,
    lp_supply: u64,
}

impl Ledger {
    fn wallet() -> Self {
        Ledger {
            user_a: WALLET,
            user_b: WALLET,
            user_lp: 0,
            vault_a: 0,
            vault_b: 0,
            treasury_a: 0,
            treasury_b: 0,
            lp_supply: 0,
        }
    }

    fn slot(&mut self, account: TokenAccount) -> &mut u64 {
        match account {
            TokenAccount::UserA => &mut self.user_a,
            TokenAccount::UserB => &mut self.user_b,
            TokenAccount::UserLp => &mut self.user_lp,
            TokenAccount::VaultA => &mut self.vault_a,
            TokenAccount::VaultB => &mut self.vault_b,
            TokenAccount::TreasuryA => &mut self.treasury_a,
            TokenAccount::TreasuryB => &mut self.treasury_b,
        }
    }

    /// Performs the movements as the token program would.
    fn apply(&mut self, plan: &[Movement]) {
        for m in plan {
            match *m {
                Movement::Transfer { from, to, amount } => {
                    *self.slot(from) -= amount;
                    *self.slot(to) += amount;
                }
                Movement::MintTo { to, amount } => {
                    *self.slot(to) += amount;
                    self.lp_supply += amount;
                }
                Movement::Burn { from, amount } => {
                    *self.slot(from) -= amount;
                    self.lp_supply -= amount;
                }
            }
        }
    }

    fn k(&self) -> u128 {
        self.vault_a as u128 * self.vault_b as u128
    }
}

/// A pool plus one user who is also the admin.
struct Amm {
    pool: Pool,
    ledger: Ledger,
}

impl Amm {
    fn setup() -> InitPool {
        InitPool {
            admin: OWNER,
            mint_a: MINT_A,
            mint_b: MINT_B,
            treasury: TREASURY,
            pool: blank_pool(),
        }
    }

    fn setup_pool() -> Self {
        let mut init = Self::setup();
        init.init_pool(IX_SEED, LP_FEE_BPS, PROTOCOL_FEE_BPS, bumps())
            .unwrap();
        Amm {
            pool: init.pool,
            ledger: Ledger::wallet(),
        }
    }

    fn setup_funded() -> Self {
        let mut amm = Self::setup_pool();
        let plan = amm
            .add_liquidity_accounts()
            .add_liquidity(POOL_LP, POOL_A, POOL_B, no_quote)
            .unwrap();
        amm.ledger.apply(&plan);
        amm
    }

    fn add_liquidity_accounts(&self) -> AddLiquidity {
        AddLiquidity {
            pool: self.pool,
            vault_a: self.ledger.vault_a,
            vault_b: self.ledger.vault_b,
            lp_supply: self.ledger.lp_supply,
        }
    }

    fn remove_liquidity_accounts(&self) -> RemoveLiquidity {
        RemoveLiquidity {
            pool: self.pool,
            vault_a: self.ledger.vault_a,
            vault_b: self.ledger.vault_b,
            lp_supply: self.ledger.lp_supply,
        }
    }

    fn swap_accounts(&self) -> Swap {
        Swap {
            pool: self.pool,
            vault_a: self.ledger.vault_a,
            vault_b: self.ledger.vault_b,
            lp_supply: self.ledger.lp_supply,
        }
    }

    fn toggle_lock(&mut self, admin: Address) -> Result<(), AmmError> {
        let mut accounts = ToggleLock {
            admin,
            pool: self.pool,
        };
        let r = accounts.toggle_lock();
        self.pool = accounts.pool;
        r
    }

    /// Adds liquidity, pricing it proportionally to the reserves as the
    /// curve does for this pool, and applies the plan on success.
    fn add(&mut self, lp_amount: u64, max_a: u64, max_b: u64) -> Result<(), AmmError> {
        let plan = self
            .add_liquidity_accounts()
            .add_liquidity(lp_amount, max_a, max_b, proportional)?;
        self.ledger.apply(&plan);
        Ok(())
    }

    fn remove(&mut self, lp_amount: u64, min_a: u64, min_b: u64) -> Result<(), AmmError> {
        let plan = self
            .remove_liquidity_accounts()
            .remove_liquidity(lp_amount, min_a, min_b, proportional)?;
        self.ledger.apply(&plan);
        Ok(())
    }

    fn swap(&mut self, is_a: bool, amount_in: u64, min_out: u64) -> Result<(), AmmError> {
        let plan = self
            .swap_accounts()
            .swap(is_a, amount_in, min_out, constant_product)?;
        self.ledger.apply(&plan);
        Ok(())
    }
}

fn blank_pool() -> Pool {
    Pool {
        seed: 0,
        admin: [0; 32],
        treasury: [0; 32],
        mint_a: [0; 32],
        mint_b: [0; 32],
        lp_fee_bps: 0,
        protocol_fee_bps: 0,
        locked: false,
        pool_bump: 0,
        lp_bump: 0,
    }
}

fn bumps() -> InitPoolBumps {
    InitPoolBumps {
        pool: 254,
        mint_lp: 253,
    }
}

/// A quote that must not be asked for.
fn no_quote(_: u64, _: u64, _: u64, _: u64, _: u32) -> Result<XYAmounts, CurveError> {
    panic!("the curve must not be asked for the first deposit");
}

/// The share of both reserves that `a` LP tokens stand for, as the curve
/// prices deposits and withdrawals for the pools these tests use.
fn proportional(x: u64, y: u64, l: u64, a: u64, precision: u32) -> Result<XYAmounts, CurveError> {
    assert_eq!(precision, PRECISION);
    let share = |r: u64| (r as u128 * a as u128 / l as u128) as u64;
    Ok(XYAmounts {
        x: share(x),
        y: share(y),
    })
}

/// A constant-product price with the fee taken from the input, refusing a
/// payout below `min_out`.
fn constant_product(
    x: u64,
    y: u64,
    _l: u64,
    fee: u16,
    decimals: u8,
    amount_in: u64,
    min_out: u64,
) -> Result<SwapResult, CurveError> {
    assert_eq!(fee, LP_FEE_BPS + PROTOCOL_FEE_BPS);
    assert_eq!(decimals, LP_DECIMALS);
    let effective = amount_in as u128 * (10_000 - fee as u128);
    let k = x as u128 * y as u128 * 10_000;
    let new_x = x as u128 * 10_000 + effective;
    let new_y = (k + new_x - 1) / new_x;
    let withdraw = (y as u128 - new_y) as u64;
    if withdraw < min_out {
        return Err(CurveError::SlippageLimitExceeded);
    }
    Ok(SwapResult {
        deposit: amount_in,
        withdraw,
    })
}

// ===========================================================================
// 1. init_pool
// ===========================================================================

#[test]
fn init_pool_sets_up_the_pool() {
    let mut init = Amm::setup();
    assert_eq!(
        init.init_pool(IX_SEED, LP_FEE_BPS, PROTOCOL_FEE_BPS, bumps()),
        Ok(())
    );

    let pool = init.pool;
    assert_eq!(pool.seed, IX_SEED);
    assert_eq!(pool.admin, OWNER);
    assert_eq!(pool.treasury, TREASURY);
    assert_eq!(pool.mint_a, MINT_A);
    assert_eq!(pool.mint_b, MINT_B);
    assert_eq!(pool.lp_fee_bps, LP_FEE_BPS);
    assert_eq!(pool.protocol_fee_bps, PROTOCOL_FEE_BPS);
    assert!(!pool.locked);
    assert_eq!(pool.pool_bump, 254);
    assert_eq!(pool.lp_bump, 253);
}

// ===========================================================================
// 2. add_liquidity
// ===========================================================================

#[test]
fn add_liquidity_takes_tokens_and_mints_lp() {
    let mut amm = Amm::setup_funded();

    // The first deposit sets the ratio: it takes the maximums as given.
    assert_eq!(amm.ledger.vault_a, POOL_A);
    assert_eq!(amm.ledger.vault_b, POOL_B);
    assert_eq!(amm.ledger.user_lp, POOL_LP);
    assert_eq!(amm.ledger.lp_supply, POOL_LP);

    // The pool is 1:4 with 200 LP, so 100 more LP must cost exactly 50 A and 200 B.
    amm.add(100_000_000, 50_000_000, 200_000_000).unwrap();
    assert_eq!(amm.ledger.vault_a, 150_000_000);
    assert_eq!(amm.ledger.vault_b, 600_000_000);
    assert_eq!(amm.ledger.lp_supply, 300_000_000);
}

// ===========================================================================
// 3. remove_liquidity
// ===========================================================================

#[test]
fn remove_liquidity_burns_lp_and_returns_tokens() {
    let mut amm = Amm::setup_funded();

    // Burn half the LP supply, get half of each vault back.
    amm.remove(POOL_LP / 2, POOL_A / 2, POOL_B / 2).unwrap();

    assert_eq!(amm.ledger.lp_supply, POOL_LP / 2);
    assert_eq!(amm.ledger.vault_a, POOL_A / 2);
    assert_eq!(amm.ledger.vault_b, POOL_B / 2);
    assert_eq!(amm.ledger.user_a, WALLET - POOL_A / 2);
    assert_eq!(amm.ledger.user_b, WALLET - POOL_B / 2);
}

// ===========================================================================
// 4. swap
// ===========================================================================

#[test]
fn swap_works_both_ways_and_pays_the_treasury() {
    let mut amm = Amm::setup_funded();
    let amount_in = 10_000_000;
    let protocol_fee = amount_in * PROTOCOL_FEE_BPS as u64 / 10_000;

    // A -> B: the user spends A and receives B.
    let (user_b_before, k_before) = (amm.ledger.user_b, amm.ledger.k());
    amm.swap(true, amount_in, 1).unwrap();
    assert_eq!(amm.ledger.user_a, WALLET - POOL_A - amount_in);
    assert!(amm.ledger.user_b > user_b_before);
    assert_eq!(amm.ledger.treasury_a, protocol_fee); // protocol fee, in the input token
    assert!(amm.ledger.k() > k_before, "the LP fee must grow k");

    // B -> A: the mirror image, paying the fee in B this time.
    let (user_a_before, k_before) = (amm.ledger.user_a, amm.ledger.k());
    amm.swap(false, amount_in, 1).unwrap();
    assert!(amm.ledger.user_a > user_a_before);
    assert_eq!(amm.ledger.treasury_b, protocol_fee);
    assert!(amm.ledger.k() > k_before, "the LP fee must grow k");
}

// ===========================================================================
// 5. toggle_lock, happy path
// ===========================================================================

#[test]
fn toggle_lock_flips_the_lock_and_gates_the_pool() {
    let mut amm = Amm::setup_funded();
    assert!(!amm.pool.locked);

    // Lock it: deposits and swaps stop, but LPs can still withdraw.
    amm.toggle_lock(OWNER).unwrap();
    assert!(amm.pool.locked);
    assert_eq!(
        amm.add(1_000_000, 1_000_000, 4_000_000),
        Err(AmmError::PoolLocked)
    );
    assert_eq!(amm.swap(true, 1_000_000, 1), Err(AmmError::PoolLocked));
    amm.remove(POOL_LP / 2, 1, 1).unwrap();

    // Toggle again: the same instruction unlocks it and the pool works again.
    amm.toggle_lock(OWNER).unwrap();
    assert!(!amm.pool.locked);
    amm.swap(true, 1_000_000, 1).unwrap();
}

// ===========================================================================
// 6. toggle_lock, error path
// ===========================================================================

#[test]
fn toggle_lock_rejects_anyone_but_the_admin() {
    let mut amm = Amm::setup_funded();

    assert_eq!(amm.toggle_lock(STRANGER), Err(AmmError::Unauthorized));
    assert!(!amm.pool.locked, "the pool must still be unlocked");
}

// ===========================================================================
// 7. bad input on every other instruction
// ===========================================================================

#[test]
fn instructions_reject_bad_input() {
    let mut amm = Amm::setup_funded();

    // Fees adding up to more than 100% are refused, on a pool not yet created.
    let mut fresh = Amm::setup();
    assert_eq!(
        fresh.init_pool(IX_SEED, 9_000, 1_001, bumps()),
        Err(AmmError::InvalidFee)
    );

    // Zero amounts are refused.
    assert_eq!(amm.add(0, POOL_A, POOL_B), Err(AmmError::ZeroAmount));
    assert_eq!(amm.remove(0, 0, 0), Err(AmmError::ZeroAmount));
    assert_eq!(amm.swap(true, 0, 0), Err(AmmError::ZeroAmount));

    // 100 LP costs exactly 50 A; one lamport less than that is not enough.
    assert_eq!(
        amm.add(100_000_000, 49_999_999, 200_000_000),
        Err(AmmError::SlippageExceeded)
    );

    // Nobody can burn more LP than exists, or demand an impossible payout.
    assert_eq!(
        amm.remove(POOL_LP + 1, 0, 0),
        Err(AmmError::InsufficientBalance)
    );
    assert_eq!(
        amm.swap(true, 1_000_000, u64::MAX),
        Err(AmmError::SlippageExceeded)
    );
}

// ===========================================================================
// Further cases
// ===========================================================================

#[test]
fn seeds_spell_pool_and_lp() {
    assert_eq!(&SEED, b"pool");
    assert_eq!(&LP_SEED, b"lp");
    assert_eq!(BPS, 10_000);
    assert_eq!(LP_DECIMALS, 6);
    assert_eq!(PRECISION, 1_000_000);
}

#[test]
fn init_pool_accepts_fees_of_exactly_one_whole() {
    let mut init = Amm::setup();
    assert_eq!(init.init_pool(1, 9_000, 1_000, bumps()), Ok(()));
    assert_eq!(init.pool.lp_fee_bps + init.pool.protocol_fee_bps, 10_000);

    // A refused pool leaves the account untouched.
    let mut init = Amm::setup();
    assert_eq!(
        init.init_pool(1, u16::MAX, u16::MAX, bumps()),
        Err(AmmError::InvalidFee)
    );
    assert_eq!(init.pool.seed, 0);
    assert_eq!(init.pool.admin, [0; 32]);
}

#[test]
fn toggle_lock_twice_restores_the_pool() {
    let mut amm = Amm::setup_pool();
    let before = amm.pool;
    amm.toggle_lock(OWNER).unwrap();
    amm.toggle_lock(OWNER).unwrap();
    assert_eq!(amm.pool.locked, before.locked);
    assert_eq!(amm.pool.seed, before.seed);
    assert_eq!(amm.pool.admin, before.admin);
    assert_eq!(amm.pool.lp_fee_bps, before.lp_fee_bps);
    assert_eq!(amm.pool.protocol_fee_bps, before.protocol_fee_bps);
}

#[test]
fn first_deposit_plan_is_transfers_then_mint() {
    let amm = Amm::setup_pool();
    let plan = amm
        .add_liquidity_accounts()
        .add_liquidity(5, 6, 7, no_quote)
        .unwrap();
    assert_eq!(
        plan,
        vec![
            Movement::Transfer {
                from: TokenAccount::UserA,
                to: TokenAccount::VaultA,
                amount: 6
            },
            Movement::Transfer {
                from: TokenAccount::UserB,
                to: TokenAccount::VaultB,
                amount: 7
            },
            Movement::MintTo {
                to: TokenAccount::UserLp,
                amount: 5
            },
        ]
    );
}

#[test]
fn later_deposit_asks_the_curve_with_reserves_and_supply() {
    let amm = Amm::setup_funded();
    let plan = amm
        .add_liquidity_accounts()
        .add_liquidity(10, 100, 100, |x, y, l, a, p| {
            assert_eq!((x, y, l, a, p), (POOL_A, POOL_B, POOL_LP, 10, PRECISION));
            Ok(XYAmounts { x: 5, y: 20 })
        })
        .unwrap();
    assert_eq!(
        plan[0],
        Movement::Transfer {
            from: TokenAccount::UserA,
            to: TokenAccount::VaultA,
            amount: 5
        }
    );
    assert_eq!(
        plan[1],
        Movement::Transfer {
            from: TokenAccount::UserB,
            to: TokenAccount::VaultB,
            amount: 20
        }
    );
}

#[test]
fn deposit_over_the_b_maximum_is_refused() {
    assert_eq!(
        AddLiquidity::settle(10, 5, 19, Ok(XYAmounts { x: 5, y: 20 })),
        Err(AmmError::SlippageExceeded)
    );
    assert_eq!(
        AddLiquidity::settle(10, 5, 20, Ok(XYAmounts { x: 5, y: 20 })).map(|p| p.len()),
        Ok(3)
    );
}

#[test]
fn curve_errors_pass_through_each_instruction() {
    let amm = Amm::setup_funded();
    assert_eq!(
        amm.add_liquidity_accounts()
            .add_liquidity(1, 1, 1, |_, _, _, _, _| Err(CurveError::Overflow)),
        Err(AmmError::Overflow)
    );
    assert_eq!(
        amm.remove_liquidity_accounts()
            .remove_liquidity(1, 0, 0, |_, _, _, _, _| Err(CurveError::ZeroBalance)),
        Err(AmmError::ZeroBalance)
    );
    assert_eq!(
        amm.swap_accounts()
            .swap(true, 1, 0, |_, _, _, _, _, _, _| Err(CurveError::InvalidFeeAmount)),
        Err(AmmError::InvalidFee)
    );
}

#[test]
fn curve_error_maps_to_amm_error() {
    let pairs = [
        (CurveError::InvalidPrecision, AmmError::InvalidPrecision),
        (CurveError::Overflow, AmmError::Overflow),
        (CurveError::Underflow, AmmError::Underflow),
        (CurveError::InvalidFeeAmount, AmmError::InvalidFee),
        (CurveError::InsufficientBalance, AmmError::InsufficientBalance),
        (CurveError::ZeroBalance, AmmError::ZeroBalance),
        (CurveError::SlippageLimitExceeded, AmmError::SlippageExceeded),
    ];
    for (curve, amm) in pairs {
        assert_eq!(AmmError::from(curve), amm);
    }
}

#[test]
fn error_messages() {
    assert_eq!(
        AmmError::InvalidFee.message(),
        "LP fee plus protocol fee cannot exceed 100% (10,000 bps)."
    );
    assert_eq!(AmmError::PoolLocked.message(), "This pool is locked.");
    assert_eq!(
        AmmError::Unauthorized.message(),
        "Only the pool admin can do this."
    );
    assert_eq!(
        AmmError::ZeroAmount.message(),
        "Amount must be greater than zero."
    );
    assert_eq!(AmmError::SlippageExceeded.message(), "Slippage limit exceeded.");
    assert_eq!(
        AmmError::InsufficientLiquidity.message(),
        "Pool does not have enough liquidity."
    );
    assert_eq!(AmmError::Overflow.message(), "Overflow detected.");
    assert_eq!(AmmError::Underflow.message(), "Underflow detected.");
    assert_eq!(AmmError::InvalidPrecision.message(), "Invalid precision.");
    assert_eq!(AmmError::InsufficientBalance.message(), "Insufficient balance.");
    assert_eq!(AmmError::ZeroBalance.message(), "Zero balance.");
}

#[test]
fn swap_splits_the_fee_between_vault_and_treasury() {
    let amm = Amm::setup_funded();
    let plan = amm
        .swap_accounts()
        .settle(
            true,
            10_000_000,
            Ok(SwapResult {
                deposit: 10_000_000,
                withdraw: 36_000_000,
            }),
        )
        .unwrap();
    assert_eq!(
        plan,
        vec![
            Movement::Transfer {
                from: TokenAccount::UserA,
                to: TokenAccount::VaultA,
                amount: 9_995_000
            },
            Movement::Transfer {
                from: TokenAccount::UserA,
                to: TokenAccount::TreasuryA,
                amount: 5_000
            },
            Movement::Transfer {
                from: TokenAccount::VaultB,
                to: TokenAccount::UserB,
                amount: 36_000_000
            },
        ]
    );
}

#[test]
fn swap_b_to_a_uses_the_b_side_accounts() {
    let amm = Amm::setup_funded();
    let plan = amm
        .swap_accounts()
        .settle(
            false,
            20_000,
            Ok(SwapResult {
                deposit: 20_000,
                withdraw: 4_000,
            }),
        )
        .unwrap();
    assert_eq!(
        plan,
        vec![
            Movement::Transfer {
                from: TokenAccount::UserB,
                to: TokenAccount::VaultB,
                amount: 19_990
            },
            Movement::Transfer {
                from: TokenAccount::UserB,
                to: TokenAccount::TreasuryB,
                amount: 10
            },
            Movement::Transfer {
                from: TokenAccount::VaultA,
                to: TokenAccount::UserA,
                amount: 4_000
            },
        ]
    );
}

#[test]
fn swap_skips_a_zero_treasury_transfer() {
    let amm = Amm::setup_funded();
    // 1_999 * 5 / 10_000 rounds down to zero: no fee transfer at all.
    let plan = amm
        .swap_accounts()
        .settle(
            true,
            1_999,
            Ok(SwapResult {
                deposit: 1_999,
                withdraw: 7_000,
            }),
        )
        .unwrap();
    assert_eq!(plan.len(), 2);
    assert_eq!(
        plan[0],
        Movement::Transfer {
            from: TokenAccount::UserA,
            to: TokenAccount::VaultA,
            amount: 1_999
        }
    );
}

#[test]
fn swap_refuses_an_empty_payout_and_a_short_deposit() {
    let amm = Amm::setup_funded();
    assert_eq!(
        amm.swap_accounts().settle(
            true,
            10_000,
            Ok(SwapResult {
                deposit: 10_000,
                withdraw: 0
            })
        ),
        Err(AmmError::InsufficientLiquidity)
    );
    assert_eq!(
        amm.swap_accounts().settle(
            true,
            10_000,
            Ok(SwapResult {
                deposit: 4,
                withdraw: 9
            })
        ),
        Err(AmmError::Underflow)
    );
}

#[test]
fn swap_asks_the_curve_with_the_input_side_first() {
    let amm = Amm::setup_funded();
    let _ = amm
        .swap_accounts()
        .swap(false, 77, 3, |x, y, l, fee, dec, a, m| {
            assert_eq!((x, y, l, fee, dec, a, m), (POOL_B, POOL_A, POOL_LP, 30, 6, 77, 3));
            Ok(SwapResult {
                deposit: 77,
                withdraw: 1,
            })
        })
        .unwrap();
}

#[test]
fn every_instruction_conserves_tokens() {
    let mut amm = Amm::setup_funded();
    let total = |l: &Ledger| {
        (
            l.user_a + l.vault_a + l.treasury_a,
            l.user_b + l.vault_b + l.treasury_b,
            l.user_lp,
            l.lp_supply,
        )
    };
    let start = total(&amm.ledger);
    assert_eq!(start, (WALLET, WALLET, POOL_LP, POOL_LP));

    amm.swap(true, 5_000_000, 1).unwrap();
    amm.swap(false, 3_000_000, 1).unwrap();
    amm.add(20_000_000, u64::MAX, u64::MAX).unwrap();
    amm.remove(50_000_000, 0, 0).unwrap();
    let end = total(&amm.ledger);
    assert_eq!((end.0, end.1), (WALLET, WALLET));
    assert_eq!(end.2, end.3);
    assert_eq!(end.3, POOL_LP + 20_000_000 - 50_000_000);
}

#[test]
fn remove_liquidity_ignores_the_lock_and_respects_minimums() {
    let mut amm = Amm::setup_funded();
    amm.toggle_lock(OWNER).unwrap();
    assert_eq!(
        amm.remove(POOL_LP / 2, POOL_A / 2 + 1, 0),
        Err(AmmError::SlippageExceeded)
    );
    assert_eq!(
        amm.remove(POOL_LP / 2, 0, POOL_B / 2 + 1),
        Err(AmmError::SlippageExceeded)
    );
    assert_eq!(
        amm.remove_liquidity_accounts()
            .remove_liquidity(POOL_LP, 0, 0, proportional)
            .unwrap(),
        vec![
            Movement::Burn {
                from: TokenAccount::UserLp,
                amount: POOL_LP
            },
            Movement::Transfer {
                from: TokenAccount::VaultA,
                to: TokenAccount::UserA,
                amount: POOL_A
            },
            Movement::Transfer {
                from: TokenAccount::VaultB,
                to: TokenAccount::UserB,
                amount: POOL_B
            },
        ]
    );
}

#[test]
fn only_vaults_need_the_pool_to_sign() {
    assert!(TokenAccount::VaultA.pool_owned());
    assert!(TokenAccount::VaultB.pool_owned());
    for account in [
        TokenAccount::UserA,
        TokenAccount::UserB,
        TokenAccount::UserLp,
        TokenAccount::TreasuryA,
        TokenAccount::TreasuryB,
    ] {
        assert!(!account.pool_owned());
    }
}

#[test]
fn addresses_compare_byte_by_byte() {
    let mut other = OWNER;
    assert!(amm_q3_2026::state::same_address(&OWNER, &other));
    other[31] = 0;
    assert!(!amm_q3_2026::state::same_address(&OWNER, &other));
}

#[test]
fn mirrored_swaps_pay_the_same() {
    let amm = Amm::setup_funded();
    let forward = amm.swap_accounts();
    let mirrored = Swap {
        vault_a: forward.vault_b,
        vault_b: forward.vault_a,
        ..forward
    };
    let a_to_b = forward.swap(true, 3_000_000, 1, constant_product).unwrap();
    let b_to_a = mirrored.swap(false, 3_000_000, 1, constant_product).unwrap();
    assert_eq!(a_to_b.len(), b_to_a.len());
    for (x, y) in a_to_b.iter().zip(b_to_a.iter()) {
        match (x, y) {
            (
                Movement::Transfer { amount: p, .. },
                Movement::Transfer { amount: q, .. },
            ) => assert_eq!(p, q),
            _ => panic!("a swap only transfers"),
        }
    }
}

#[test]
fn only_the_admin_toggles_and_others_change_nothing() {
    let mut amm = Amm::setup_pool();
    let before = amm.pool;
    assert_eq!(amm.toggle_lock(STRANGER), Err(AmmError::Unauthorized));
    assert_eq!(amm.pool.locked, before.locked);
    assert_eq!(amm.toggle_lock(OWNER), Ok(()));
    assert!(amm.pool.locked);
    assert_eq!(amm.pool.treasury, before.treasury);
    assert_eq!(amm.pool.mint_a, before.mint_a);
    assert_eq!(amm.pool.mint_b, before.mint_b);
    assert_eq!(amm.pool.pool_bump, before.pool_bump);
    assert_eq!(amm.pool.lp_bump, before.lp_bump);
}

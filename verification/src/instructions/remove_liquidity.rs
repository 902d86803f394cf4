use vstd::prelude::*;

use crate::constants::PRECISION;
use crate::curve::XYAmounts;
use crate::error::{curve_error_to_amm, AmmError, CurveError};
use crate::movement::{
    lemma_plan_empty, lemma_plan_push, net_change, plan_result, plan_wf, supply_change, Movement,
    TokenAccount,
};
use crate::state::Pool;

verus! {

/// What removing liquidity reads: the pool and the current balances of its
/// vaults and LP mint.
#[derive(Clone, Copy, Debug)]
pub struct RemoveLiquidity {
    pub pool: Pool,
    pub vault_a: u64,
    pub vault_b: u64,
    pub lp_supply: u64,
}

/// The token movements of a withdrawal: `lp_amount` LP tokens burnt from the
/// user, then `a` of token A and `b` of token B paid out of the vaults.
pub open spec fn withdraw_plan(lp_amount: u64, a: u64, b: u64) -> Seq<Movement> {
    seq![
        Movement::Burn { from: TokenAccount::UserLp, amount: lp_amount },
        Movement::Transfer { from: TokenAccount::VaultA, to: TokenAccount::UserA, amount: a },
        Movement::Transfer { from: TokenAccount::VaultB, to: TokenAccount::UserB, amount: b },
    ]
}

impl RemoveLiquidity {
    /// What the curve is asked: the reserves, the LP supply, the LP amount
    /// given back and the precision of the ratio.
    pub open spec fn quote_args(self, lp_amount: u64) -> (u64, u64, u64, u64, u32) {
        (self.vault_a, self.vault_b, self.lp_supply, lp_amount, PRECISION)
    }

    /// The outcome of a withdrawal, given what the curve answers when it is
    /// asked: a zero amount and more LP tokens than exist are refused before
    /// the curve is asked. Nothing here reads the pool, so not its lock either.
    pub open spec fn outcome(
        self,
        lp_amount: u64,
        min_amt_a: u64,
        min_amt_b: u64,
        quoted: Result<XYAmounts, CurveError>,
    ) -> Result<Seq<Movement>, AmmError> {
        if lp_amount == 0 {
            Err(AmmError::ZeroAmount)
        } else if lp_amount > self.lp_supply {
            Err(AmmError::InsufficientBalance)
        } else {
            Self::settlement(lp_amount, min_amt_a, min_amt_b, quoted)
        }
    }

    /// `r` is what a withdrawal with pricing `quote` may give: the outcome
    /// for some answer that `quote` gives to `quote_args` when the curve is
    /// asked (any answer at all when it is not).
    pub open spec fn exit_result<F: FnOnce(u64, u64, u64, u64, u32) -> Result<
        XYAmounts,
        CurveError,
    >>(
        self,
        lp_amount: u64,
        min_amt_a: u64,
        min_amt_b: u64,
        quote: F,
        r: Result<Seq<Movement>, AmmError>,
    ) -> bool {
        exists|quoted: Result<XYAmounts, CurveError>|
            {
                &&& 0 < lp_amount <= self.lp_supply ==> quote.ensures(
                    self.quote_args(lp_amount),
                    quoted,
                )
                &&& #[trigger] self.outcome(lp_amount, min_amt_a, min_amt_b, quoted) == r
            }
    }

    /// The outcome of a withdrawal once the curve has said what it pays.
    pub open spec fn settlement(
        lp_amount: u64,
        min_amt_a: u64,
        min_amt_b: u64,
        quoted: Result<XYAmounts, CurveError>,
    ) -> Result<Seq<Movement>, AmmError> {
        match quoted {
            Err(e) => Err(curve_error_to_amm(e)),
            Ok(amounts) => if amounts.x >= min_amt_a && amounts.y >= min_amt_b {
                Ok(withdraw_plan(lp_amount, amounts.x, amounts.y))
            } else {
                Err(AmmError::SlippageExceeded)
            },
        }
    }

    /// Finishes a withdrawal from the curve's payout: refuses it when either
    /// amount falls short of the user's minimum, and plans the burn and the
    /// transfers.
    pub fn settle(
        lp_amount: u64,
        min_amt_a: u64,
        min_amt_b: u64,
        quoted: Result<XYAmounts, CurveError>,
    ) -> (r: Result<Vec<Movement>, AmmError>)
        ensures
            plan_result(r) == Self::settlement(lp_amount, min_amt_a, min_amt_b, quoted),
    {
        let amounts = match quoted {
            Err(e) => {
                return Err(AmmError::from(e));
            },
            Ok(amounts) => amounts,
        };
        let (amt_a, amt_b) = (amounts.x, amounts.y);
        if !(amt_a >= min_amt_a && amt_b >= min_amt_b) {
            return Err(AmmError::SlippageExceeded);
        }
        let mut plan: Vec<Movement> = Vec::new();
        plan.push(Movement::Burn { from: TokenAccount::UserLp, amount: lp_amount });
        plan.push(Movement::Transfer { from: TokenAccount::VaultA, to: TokenAccount::UserA, amount: amt_a });
        plan.push(Movement::Transfer { from: TokenAccount::VaultB, to: TokenAccount::UserB, amount: amt_b });
        assert(plan@ =~= withdraw_plan(lp_amount, amt_a, amt_b));
        Ok(plan)
    }

    /// Burns `lp_amount` LP tokens for the user's share of both vaults.
    /// Allowed even while the pool is locked so liquidity providers can always exit.
    pub fn remove_liquidity<F>(&self, lp_amount: u64, min_amt_a: u64, min_amt_b: u64, quote: F) -> (r:
        Result<Vec<Movement>, AmmError>) where
        F: FnOnce(u64, u64, u64, u64, u32) -> Result<XYAmounts, CurveError>,
        requires
            0 < lp_amount <= self.lp_supply ==> quote.requires(self.quote_args(lp_amount)),
        ensures
            plan_result(r) != Err::<Seq<Movement>, AmmError>(AmmError::PoolLocked),
            lp_amount == 0 ==> plan_result(r) == Err::<Seq<Movement>, AmmError>(
                AmmError::ZeroAmount,
            ),
            lp_amount > 0 && lp_amount > self.lp_supply ==> plan_result(r) == Err::<
                Seq<Movement>,
                AmmError,
            >(AmmError::InsufficientBalance),
            lp_amount > 0 && lp_amount <= self.lp_supply ==> exists|
                quoted: Result<XYAmounts, CurveError>,
            |
                {
                    &&& #[trigger] quote.ensures(self.quote_args(lp_amount), quoted)
                    &&& plan_result(r) == self.outcome(lp_amount, min_amt_a, min_amt_b, quoted)
                },
            self.exit_result(lp_amount, min_amt_a, min_amt_b, quote, plan_result(r)),
    {
        if lp_amount == 0 {
            let r = Err(AmmError::ZeroAmount);
            assert(self.outcome(lp_amount, min_amt_a, min_amt_b, Err(CurveError::Overflow))
                == plan_result(r));
            return r;
        }
        if lp_amount > self.lp_supply {
            let r = Err(AmmError::InsufficientBalance);
            assert(self.outcome(lp_amount, min_amt_a, min_amt_b, Err(CurveError::Overflow))
                == plan_result(r));
            return r;
        }
        let quoted = quote(self.vault_a, self.vault_b, self.lp_supply, lp_amount, PRECISION);
        Self::settle(lp_amount, min_amt_a, min_amt_b, quoted)
    }
}

/// The lock never blocks an exit: two pools that differ in their lock (or in
/// any other field of the pool) but hold the same reserves and LP supply ask
/// the curve the same question and reach the same outcome for its answer.
pub proof fn lemma_remove_ignores_lock(
    locked: RemoveLiquidity,
    unlocked: RemoveLiquidity,
    lp_amount: u64,
    min_amt_a: u64,
    min_amt_b: u64,
    quoted: Result<XYAmounts, CurveError>,
)
    requires
        locked.vault_a == unlocked.vault_a,
        locked.vault_b == unlocked.vault_b,
        locked.lp_supply == unlocked.lp_supply,
    ensures
        locked.quote_args(lp_amount) == unlocked.quote_args(lp_amount),
        locked.outcome(lp_amount, min_amt_a, min_amt_b, quoted) == unlocked.outcome(
            lp_amount,
            min_amt_a,
            min_amt_b,
            quoted,
        ),
        locked.outcome(lp_amount, min_amt_a, min_amt_b, quoted) != Err::<Seq<Movement>, AmmError>(
            AmmError::PoolLocked,
        ),
{
}

/// The lock never blocks an exit, across two calls: with a pricing that gives
/// one answer to one question, two pools that differ in their lock (or in any
/// other field of the pool) but hold the same reserves and LP supply give the
/// same withdrawal, and neither is refused for the lock.
pub proof fn lemma_exit_same_whatever_the_lock<F: FnOnce(u64, u64, u64, u64, u32) -> Result<
    XYAmounts,
    CurveError,
>>(
    locked: RemoveLiquidity,
    unlocked: RemoveLiquidity,
    lp_amount: u64,
    min_amt_a: u64,
    min_amt_b: u64,
    quote: F,
    r1: Result<Seq<Movement>, AmmError>,
    r2: Result<Seq<Movement>, AmmError>,
)
    requires
        locked.vault_a == unlocked.vault_a,
        locked.vault_b == unlocked.vault_b,
        locked.lp_supply == unlocked.lp_supply,
        forall|args: (u64, u64, u64, u64, u32), q1: Result<XYAmounts, CurveError>, q2: Result<
            XYAmounts,
            CurveError,
        >| #[trigger] quote.ensures(args, q1) && #[trigger] quote.ensures(args, q2) ==> q1 == q2,
        locked.exit_result(lp_amount, min_amt_a, min_amt_b, quote, r1),
        unlocked.exit_result(lp_amount, min_amt_a, min_amt_b, quote, r2),
    ensures
        r1 == r2,
        r1 != Err::<Seq<Movement>, AmmError>(AmmError::PoolLocked),
{
    let q1 = choose|q: Result<XYAmounts, CurveError>|
        {
            &&& 0 < lp_amount <= locked.lp_supply ==> quote.ensures(
                locked.quote_args(lp_amount),
                q,
            )
            &&& #[trigger] locked.outcome(lp_amount, min_amt_a, min_amt_b, q) == r1
        };
    let q2 = choose|q: Result<XYAmounts, CurveError>|
        {
            &&& 0 < lp_amount <= unlocked.lp_supply ==> quote.ensures(
                unlocked.quote_args(lp_amount),
                q,
            )
            &&& #[trigger] unlocked.outcome(lp_amount, min_amt_a, min_amt_b, q) == r2
        };
    if 0 < lp_amount <= locked.lp_supply {
        assert(locked.quote_args(lp_amount) == unlocked.quote_args(lp_amount));
        assert(q1 == q2);
    }
}

/// A withdrawal burns `lp_amount` of the user's LP tokens, pays `a` of token A
/// and `b` of token B out of the vaults to the user, and touches nothing else.
pub proof fn lemma_withdraw_plan_effect(lp_amount: u64, a: u64, b: u64)
    ensures
        plan_wf(withdraw_plan(lp_amount, a, b)),
        net_change(withdraw_plan(lp_amount, a, b), TokenAccount::UserLp) == -(lp_amount as int),
        net_change(withdraw_plan(lp_amount, a, b), TokenAccount::VaultA) == -(a as int),
        net_change(withdraw_plan(lp_amount, a, b), TokenAccount::UserA) == a as int,
        net_change(withdraw_plan(lp_amount, a, b), TokenAccount::VaultB) == -(b as int),
        net_change(withdraw_plan(lp_amount, a, b), TokenAccount::UserB) == b as int,
        net_change(withdraw_plan(lp_amount, a, b), TokenAccount::TreasuryA) == 0,
        net_change(withdraw_plan(lp_amount, a, b), TokenAccount::TreasuryB) == 0,
        supply_change(withdraw_plan(lp_amount, a, b)) == -(lp_amount as int),
{
    let m1 = Movement::Burn { from: TokenAccount::UserLp, amount: lp_amount };
    let m2 = Movement::Transfer { from: TokenAccount::VaultA, to: TokenAccount::UserA, amount: a };
    let m3 = Movement::Transfer { from: TokenAccount::VaultB, to: TokenAccount::UserB, amount: b };
    let e = Seq::<Movement>::empty();
    lemma_plan_empty();
    lemma_plan_push(e, m1);
    lemma_plan_push(e.push(m1), m2);
    lemma_plan_push(e.push(m1).push(m2), m3);
    assert(withdraw_plan(lp_amount, a, b) =~= e.push(m1).push(m2).push(m3));
}

/// A withdrawal, when it succeeds, pays the user at least the minimum of
/// each token and shrinks the LP supply by exactly the LP amount burnt.
pub proof fn lemma_withdraw_within_minimums(
    lp_amount: u64,
    min_amt_a: u64,
    min_amt_b: u64,
    quoted: Result<XYAmounts, CurveError>,
)
    requires
        RemoveLiquidity::settlement(lp_amount, min_amt_a, min_amt_b, quoted) is Ok,
    ensures
        ({
            let plan = RemoveLiquidity::settlement(lp_amount, min_amt_a, min_amt_b, quoted)->Ok_0;
            &&& plan_wf(plan)
            &&& net_change(plan, TokenAccount::UserA) >= min_amt_a
            &&& net_change(plan, TokenAccount::UserB) >= min_amt_b
            &&& net_change(plan, TokenAccount::VaultA) == -net_change(plan, TokenAccount::UserA)
            &&& net_change(plan, TokenAccount::VaultB) == -net_change(plan, TokenAccount::UserB)
            &&& net_change(plan, TokenAccount::UserLp) == -(lp_amount as int)
            &&& supply_change(plan) == -(lp_amount as int)
        }),
{
    let amounts = quoted->Ok_0;
    lemma_withdraw_plan_effect(lp_amount, amounts.x, amounts.y);
}

/// A withdrawal asks the curve with token A's reserve as its x side and token
/// B's as its y side, whichever is larger, and with exactly the LP amount it
/// burns. Once the amount is positive and at most the supply, and the payout
/// meets both minimums, it succeeds whatever the vault balances: it burns
/// that LP amount, pays the curve's x out of vault A and its y out of vault
/// B. It is refused only for a zero amount, more LP than exists, a pricing
/// error or a payout below a minimum.
pub proof fn lemma_withdrawal_pays_what_is_quoted(
    pool: RemoveLiquidity,
    lp_amount: u64,
    min_amt_a: u64,
    min_amt_b: u64,
    quoted: Result<XYAmounts, CurveError>,
)
    ensures
        pool.quote_args(lp_amount).0 == pool.vault_a,
        pool.quote_args(lp_amount).1 == pool.vault_b,
        pool.quote_args(lp_amount).2 == pool.lp_supply,
        pool.quote_args(lp_amount).3 == lp_amount,
        pool.quote_args(lp_amount).4 == 1_000_000u32,
        0 < lp_amount <= pool.lp_supply && quoted is Ok && quoted->Ok_0.x >= min_amt_a
            && quoted->Ok_0.y >= min_amt_b ==> {
            let r = pool.outcome(lp_amount, min_amt_a, min_amt_b, quoted);
            let plan = r->Ok_0;
            &&& r is Ok
            &&& plan_wf(plan)
            &&& net_change(plan, TokenAccount::UserLp) == -(lp_amount as int)
            &&& supply_change(plan) == -(lp_amount as int)
            &&& net_change(plan, TokenAccount::VaultA) == -(quoted->Ok_0.x as int)
            &&& net_change(plan, TokenAccount::UserA) == quoted->Ok_0.x as int
            &&& net_change(plan, TokenAccount::VaultB) == -(quoted->Ok_0.y as int)
            &&& net_change(plan, TokenAccount::UserB) == quoted->Ok_0.y as int
            &&& net_change(plan, TokenAccount::TreasuryA) == 0
            &&& net_change(plan, TokenAccount::TreasuryB) == 0
        },
        pool.outcome(lp_amount, min_amt_a, min_amt_b, quoted) is Err ==> {
            let e = pool.outcome(lp_amount, min_amt_a, min_amt_b, quoted)->Err_0;
            ||| lp_amount == 0 && e == AmmError::ZeroAmount
            ||| lp_amount > pool.lp_supply && e == AmmError::InsufficientBalance
            ||| quoted is Err && e == curve_error_to_amm(quoted->Err_0)
            ||| quoted is Ok && (quoted->Ok_0.x < min_amt_a || quoted->Ok_0.y < min_amt_b) && e
                == AmmError::SlippageExceeded
        },
{
    if quoted is Ok {
        lemma_withdraw_plan_effect(lp_amount, quoted->Ok_0.x, quoted->Ok_0.y);
    }
}

} // verus!

use vstd::prelude::*;

use crate::constants::PRECISION;
use crate::curve::XYAmounts;
use crate::error::{curve_error_to_amm, AmmError, CurveError};
use crate::movement::{
    lemma_plan_empty, lemma_plan_push, net_change, plan_result, plan_wf, supply_change, Movement,
    TokenAccount,
};
use crate::state::Pool;

verus! {

/// What adding liquidity reads: the pool and the current balances of its
/// vaults and LP mint.
#[derive(Clone, Copy, Debug)]
pub struct AddLiquidity {
    pub pool: Pool,
    pub vault_a: u64,
    pub vault_b: u64,
    pub lp_supply: u64,
}

/// The token movements of a deposit: `a` of token A and `b` of token B from
/// the user to the vaults, then `lp_amount` LP tokens minted to the user.
pub open spec fn deposit_plan(a: u64, b: u64, lp_amount: u64) -> Seq<Movement> {
    seq![
        Movement::Transfer { from: TokenAccount::UserA, to: TokenAccount::VaultA, amount: a },
        Movement::Transfer { from: TokenAccount::UserB, to: TokenAccount::VaultB, amount: b },
        Movement::MintTo { to: TokenAccount::UserLp, amount: lp_amount },
    ]
}

impl AddLiquidity {
    /// The pool holds nothing yet: no LP tokens and empty vaults.
    pub open spec fn is_empty(self) -> bool {
        self.lp_supply == 0 && self.vault_a == 0 && self.vault_b == 0
    }

    /// What the curve is asked: the reserves, the LP supply, the LP amount
    /// wanted and the precision of the ratio.
    pub open spec fn quote_args(self, lp_amount: u64) -> (u64, u64, u64, u64, u32) {
        (self.vault_a, self.vault_b, self.lp_supply, lp_amount, PRECISION)
    }

    /// The outcome of a deposit into a pool that already holds liquidity,
    /// once the curve has said what it costs.
    pub open spec fn settlement(
        lp_amount: u64,
        max_a: u64,
        max_b: u64,
        quoted: Result<XYAmounts, CurveError>,
    ) -> Result<Seq<Movement>, AmmError> {
        match quoted {
            Err(e) => Err(curve_error_to_amm(e)),
            Ok(amounts) => if amounts.x <= max_a && amounts.y <= max_b {
                Ok(deposit_plan(amounts.x, amounts.y, lp_amount))
            } else {
                Err(AmmError::SlippageExceeded)
            },
        }
    }

    /// Finishes a deposit from the curve's price: refuses it when either
    /// amount exceeds the user's maximum, and plans the transfers and the mint.
    pub fn settle(lp_amount: u64, max_a: u64, max_b: u64, quoted: Result<XYAmounts, CurveError>) -> (r:
        Result<Vec<Movement>, AmmError>)
        ensures
            plan_result(r) == Self::settlement(lp_amount, max_a, max_b, quoted),
    {
        let amounts = match quoted {
            Err(e) => {
                return Err(AmmError::from(e));
            },
            Ok(amounts) => amounts,
        };
        if !(amounts.x <= max_a && amounts.y <= max_b) {
            return Err(AmmError::SlippageExceeded);
        }
        Ok(Self::deposit_movements(amounts.x, amounts.y, lp_amount))
    }

    fn deposit_movements(a: u64, b: u64, lp_amount: u64) -> (r: Vec<Movement>)
        ensures
            r@ == deposit_plan(a, b, lp_amount),
    {
        let mut plan: Vec<Movement> = Vec::new();
        plan.push(Movement::Transfer { from: TokenAccount::UserA, to: TokenAccount::VaultA, amount: a });
        plan.push(Movement::Transfer { from: TokenAccount::UserB, to: TokenAccount::VaultB, amount: b });
        plan.push(Movement::MintTo { to: TokenAccount::UserLp, amount: lp_amount });
        assert(plan@ =~= deposit_plan(a, b, lp_amount));
        plan
    }

    /// Deposits tokens A and B and mints `lp_amount` LP tokens for them. The
    /// first deposit into an empty pool takes the maximums as given and so
    /// sets the ratio; any later one pays what the curve asks for that many
    /// LP tokens, if that stays within both maximums.
    pub fn add_liquidity<F>(&self, lp_amount: u64, max_a: u64, max_b: u64, quote: F) -> (r: Result<
        Vec<Movement>,
        AmmError,
    >) where F: FnOnce(u64, u64, u64, u64, u32) -> Result<XYAmounts, CurveError>
        requires
            !self.pool.locked && lp_amount > 0 && max_a > 0 && max_b > 0 && !self.is_empty()
                ==> quote.requires(self.quote_args(lp_amount)),
        ensures
            self.pool.locked ==> plan_result(r) == Err::<Seq<Movement>, AmmError>(
                AmmError::PoolLocked,
            ),
            !self.pool.locked && (lp_amount == 0 || max_a == 0 || max_b == 0) ==> plan_result(r)
                == Err::<Seq<Movement>, AmmError>(AmmError::ZeroAmount),
            !self.pool.locked && lp_amount > 0 && max_a > 0 && max_b > 0 && self.is_empty()
                ==> plan_result(r) == Ok::<Seq<Movement>, AmmError>(
                deposit_plan(max_a, max_b, lp_amount),
            ),
            !self.pool.locked && lp_amount > 0 && max_a > 0 && max_b > 0 && !self.is_empty()
                ==> exists|quoted: Result<XYAmounts, CurveError>|
                {
                    &&& #[trigger] quote.ensures(self.quote_args(lp_amount), quoted)
                    &&& plan_result(r) == Self::settlement(lp_amount, max_a, max_b, quoted)
                },
    {
        if self.pool.locked {
            return Err(AmmError::PoolLocked);
        }
        if !(lp_amount > 0 && max_a > 0 && max_b > 0) {
            return Err(AmmError::ZeroAmount);
        }
        if self.lp_supply == 0 && self.vault_a == 0 && self.vault_b == 0 {
            Ok(Self::deposit_movements(max_a, max_b, lp_amount))
        } else {
            let quoted = quote(self.vault_a, self.vault_b, self.lp_supply, lp_amount, PRECISION);
            Self::settle(lp_amount, max_a, max_b, quoted)
        }
    }
}

/// A deposit moves `a` of token A and `b` of token B from the user into the
/// vaults, mints `lp_amount` LP tokens to the user, and touches nothing else.
pub proof fn lemma_deposit_plan_effect(a: u64, b: u64, lp_amount: u64)
    ensures
        plan_wf(deposit_plan(a, b, lp_amount)),
        net_change(deposit_plan(a, b, lp_amount), TokenAccount::UserA) == -(a as int),
        net_change(deposit_plan(a, b, lp_amount), TokenAccount::VaultA) == a as int,
        net_change(deposit_plan(a, b, lp_amount), TokenAccount::UserB) == -(b as int),
        net_change(deposit_plan(a, b, lp_amount), TokenAccount::VaultB) == b as int,
        net_change(deposit_plan(a, b, lp_amount), TokenAccount::UserLp) == lp_amount as int,
        net_change(deposit_plan(a, b, lp_amount), TokenAccount::TreasuryA) == 0,
        net_change(deposit_plan(a, b, lp_amount), TokenAccount::TreasuryB) == 0,
        supply_change(deposit_plan(a, b, lp_amount)) == lp_amount as int,
{
    let m1 = Movement::Transfer { from: TokenAccount::UserA, to: TokenAccount::VaultA, amount: a };
    let m2 = Movement::Transfer { from: TokenAccount::UserB, to: TokenAccount::VaultB, amount: b };
    let m3 = Movement::MintTo { to: TokenAccount::UserLp, amount: lp_amount };
    let e = Seq::<Movement>::empty();
    lemma_plan_empty();
    lemma_plan_push(e, m1);
    lemma_plan_push(e.push(m1), m2);
    lemma_plan_push(e.push(m1).push(m2), m3);
    assert(deposit_plan(a, b, lp_amount) =~= e.push(m1).push(m2).push(m3));
}

/// A deposit into a funded pool, when it succeeds, takes no more of either
/// token than the user allowed, and mints exactly the LP amount asked for.
pub proof fn lemma_deposit_within_maximums(
    lp_amount: u64,
    max_a: u64,
    max_b: u64,
    quoted: Result<XYAmounts, CurveError>,
)
    requires
        AddLiquidity::settlement(lp_amount, max_a, max_b, quoted) is Ok,
    ensures
        ({
            let plan = AddLiquidity::settlement(lp_amount, max_a, max_b, quoted)->Ok_0;
            &&& plan_wf(plan)
            &&& -net_change(plan, TokenAccount::UserA) <= max_a
            &&& -net_change(plan, TokenAccount::UserB) <= max_b
            &&& net_change(plan, TokenAccount::VaultA) == -net_change(plan, TokenAccount::UserA)
            &&& net_change(plan, TokenAccount::VaultB) == -net_change(plan, TokenAccount::UserB)
            &&& net_change(plan, TokenAccount::UserLp) == lp_amount
            &&& supply_change(plan) == lp_amount
        }),
{
    let amounts = quoted->Ok_0;
    lemma_deposit_plan_effect(amounts.x, amounts.y, lp_amount);
}

/// A pool counts as empty, so that its first deposit sets the ratio, exactly
/// when it has no LP tokens and both vaults are empty. A deposit into a
/// funded pool asks the curve for the price of exactly the
/// LP amount it mints, with token A's reserve as the curve's x side and token
/// B's as its y side, whichever is larger. When the price is within both
/// maximums, the user pays exactly the curve's x into vault A and its y into
/// vault B and receives exactly that LP amount, whatever the balances; the
/// deposit is refused only for a pricing error or a price over a maximum.
pub proof fn lemma_deposit_prices_what_it_mints(
    pool: AddLiquidity,
    lp_amount: u64,
    max_a: u64,
    max_b: u64,
    quoted: Result<XYAmounts, CurveError>,
)
    ensures
        pool.is_empty() <==> (pool.lp_supply == 0 && pool.vault_a == 0 && pool.vault_b == 0),
        pool.quote_args(lp_amount).0 == pool.vault_a,
        pool.quote_args(lp_amount).1 == pool.vault_b,
        pool.quote_args(lp_amount).2 == pool.lp_supply,
        pool.quote_args(lp_amount).3 == lp_amount,
        pool.quote_args(lp_amount).4 == 1_000_000u32,
        quoted is Ok && quoted->Ok_0.x <= max_a && quoted->Ok_0.y <= max_b ==> {
            let r = AddLiquidity::settlement(lp_amount, max_a, max_b, quoted);
            let plan = r->Ok_0;
            &&& r is Ok
            &&& plan_wf(plan)
            &&& net_change(plan, TokenAccount::UserA) == -(quoted->Ok_0.x as int)
            &&& net_change(plan, TokenAccount::VaultA) == quoted->Ok_0.x as int
            &&& net_change(plan, TokenAccount::UserB) == -(quoted->Ok_0.y as int)
            &&& net_change(plan, TokenAccount::VaultB) == quoted->Ok_0.y as int
            &&& net_change(plan, TokenAccount::UserLp) == lp_amount as int
            &&& net_change(plan, TokenAccount::TreasuryA) == 0
            &&& net_change(plan, TokenAccount::TreasuryB) == 0
            &&& supply_change(plan) == lp_amount as int
        },
        quoted is Ok && (quoted->Ok_0.x > max_a || quoted->Ok_0.y > max_b) ==> AddLiquidity::settlement(
            lp_amount,
            max_a,
            max_b,
            quoted,
        ) == Err::<Seq<Movement>, AmmError>(AmmError::SlippageExceeded),
        quoted is Err ==> AddLiquidity::settlement(lp_amount, max_a, max_b, quoted) == Err::<
            Seq<Movement>,
            AmmError,
        >(curve_error_to_amm(quoted->Err_0)),
{
    if quoted is Ok {
        lemma_deposit_plan_effect(quoted->Ok_0.x, quoted->Ok_0.y, lp_amount);
    }
}

} // verus!

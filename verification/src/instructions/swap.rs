use vstd::prelude::*;

use crate::constants::{BPS, LP_DECIMALS};
use crate::curve::SwapResult;
use crate::error::{curve_error_to_amm, AmmError, CurveError};
use crate::movement::{
    lemma_plan_empty, lemma_plan_push, net_change, plan_result, plan_wf, supply_change, Movement,
    TokenAccount,
};
use crate::state::Pool;

verus! {

/// What a swap reads: the pool and the current balances of its vaults and LP mint.
#[derive(Clone, Copy, Debug)]
pub struct Swap {
    pub pool: Pool,
    pub vault_a: u64,
    pub vault_b: u64,
    pub lp_supply: u64,
}

/// The protocol's share of a swap's input: `amount_in * protocol_fee_bps / BPS`, rounded down.
pub open spec fn protocol_fee(amount_in: u64, protocol_fee_bps: u16) -> int {
    (amount_in * protocol_fee_bps) / (BPS as int)
}

/// The token movements of a swap: the input goes to the input vault and the
/// protocol fee to the input treasury (each only when it is not zero), then
/// the output vault pays the user.
pub open spec fn swap_plan(is_a: bool, to_vault: u64, to_treasury: u64, withdraw: u64) -> Seq<
    Movement,
> {
    let user_in = if is_a { TokenAccount::UserA } else { TokenAccount::UserB };
    let vault_in = if is_a { TokenAccount::VaultA } else { TokenAccount::VaultB };
    let treasury_in = if is_a { TokenAccount::TreasuryA } else { TokenAccount::TreasuryB };
    let vault_out = if is_a { TokenAccount::VaultB } else { TokenAccount::VaultA };
    let user_out = if is_a { TokenAccount::UserB } else { TokenAccount::UserA };
    let to_vault_moves = if to_vault > 0 {
        seq![Movement::Transfer { from: user_in, to: vault_in, amount: to_vault }]
    } else {
        Seq::<Movement>::empty()
    };
    let to_treasury_moves = if to_treasury > 0 {
        seq![Movement::Transfer { from: user_in, to: treasury_in, amount: to_treasury }]
    } else {
        Seq::<Movement>::empty()
    };
    (to_vault_moves + to_treasury_moves).push(
        Movement::Transfer { from: vault_out, to: user_out, amount: withdraw },
    )
}

impl Swap {
    /// The reserve of the token the user pays in.
    pub open spec fn reserve_in(self, is_a: bool) -> u64 {
        if is_a { self.vault_a } else { self.vault_b }
    }

    /// The reserve of the token the user receives.
    pub open spec fn reserve_out(self, is_a: bool) -> u64 {
        if is_a { self.vault_b } else { self.vault_a }
    }

    /// What the curve is asked: the input side is always its X side, with the
    /// LP supply, the total fee, the LP decimals, the amount in and the least
    /// acceptable amount out.
    pub open spec fn price_args(self, is_a: bool, amount_in: u64, min_out: u64) -> (
        u64,
        u64,
        u64,
        u16,
        u8,
        u64,
        u64,
    ) {
        (
            self.reserve_in(is_a),
            self.reserve_out(is_a),
            self.lp_supply,
            self.pool.total_fee_bps() as u16,
            LP_DECIMALS,
            amount_in,
            min_out,
        )
    }

    /// The amounts a swap moves once the curve has answered: what stays in
    /// the input vault, what goes to the treasury, and what the user is paid.
    /// They do not depend on the direction of the swap.
    pub open spec fn settlement_amounts(
        self,
        amount_in: u64,
        priced: Result<SwapResult, CurveError>,
    ) -> Result<(u64, u64, u64), AmmError> {
        match priced {
            Err(e) => Err(curve_error_to_amm(e)),
            Ok(s) => {
                let fee = protocol_fee(amount_in, self.pool.protocol_fee_bps);
                if s.withdraw == 0 {
                    Err(AmmError::InsufficientLiquidity)
                } else if s.deposit < fee {
                    Err(AmmError::Underflow)
                } else {
                    Ok(((s.deposit - fee) as u64, fee as u64, s.withdraw))
                }
            },
        }
    }

    /// The outcome of a swap once the curve has answered.
    pub open spec fn settlement(
        self,
        is_a: bool,
        amount_in: u64,
        priced: Result<SwapResult, CurveError>,
    ) -> Result<Seq<Movement>, AmmError> {
        match self.settlement_amounts(amount_in, priced) {
            Err(e) => Err(e),
            Ok((to_vault, to_treasury, withdraw)) => Ok(
                swap_plan(is_a, to_vault, to_treasury, withdraw),
            ),
        }
    }

    /// The outcome of a swap, given what the curve answers when it is asked:
    /// a locked pool and a zero amount are refused before it is asked.
    pub open spec fn outcome(
        self,
        is_a: bool,
        amount_in: u64,
        priced: Result<SwapResult, CurveError>,
    ) -> Result<Seq<Movement>, AmmError> {
        if self.pool.locked {
            Err(AmmError::PoolLocked)
        } else if amount_in == 0 {
            Err(AmmError::ZeroAmount)
        } else {
            self.settlement(is_a, amount_in, priced)
        }
    }

    /// `r` is what a swap with pricing `price` may give: the outcome for some
    /// answer that `price` gives to `price_args` when the curve is asked (any
    /// answer at all when it is not).
    pub open spec fn swap_result<F: FnOnce(u64, u64, u64, u16, u8, u64, u64) -> Result<
        SwapResult,
        CurveError,
    >>(
        self,
        is_a: bool,
        amount_in: u64,
        min_out: u64,
        price: F,
        r: Result<Seq<Movement>, AmmError>,
    ) -> bool {
        exists|priced: Result<SwapResult, CurveError>|
            {
                &&& !self.pool.locked && amount_in > 0 ==> price.ensures(
                    self.price_args(is_a, amount_in, min_out),
                    priced,
                )
                &&& #[trigger] self.outcome(is_a, amount_in, priced) == r
            }
    }

    /// Finishes a swap from the curve's answer: refuses an empty payout, takes
    /// the protocol fee out of the deposit, and plans the transfers.
    pub fn settle(&self, is_a: bool, amount_in: u64, priced: Result<SwapResult, CurveError>) -> (r:
        Result<Vec<Movement>, AmmError>)
        requires
            self.pool.wf(),
        ensures
            plan_result(r) == self.settlement(is_a, amount_in, priced),
    {
        let swap_result = match priced {
            Err(e) => {
                return Err(AmmError::from(e));
            },
            Ok(s) => s,
        };
        if swap_result.withdraw == 0 {
            return Err(AmmError::InsufficientLiquidity);
        }
        let bps = self.pool.protocol_fee_bps;
        assert((amount_in as int) * (bps as int) <= (amount_in as int) * 10000) by (nonlinear_arith)
            requires
                bps <= 10000,
        ;
        assert((amount_in as int) * 10000 <= 0xffff_ffff_ffff_ffff * 10000) by (nonlinear_arith);
        let wide: u128 = (amount_in as u128) * (bps as u128);
        assert(wide / 10000 <= amount_in) by (nonlinear_arith)
            requires
                wide <= (amount_in as int) * 10000,
        ;
        let protocol_fee: u64 = (wide / (BPS as u128)) as u64;
        if swap_result.deposit < protocol_fee {
            return Err(AmmError::Underflow);
        }
        let to_vault = swap_result.deposit - protocol_fee;
        let (user_in, vault_in, treasury_in, vault_out, user_out) = if is_a {
            (
                TokenAccount::UserA,
                TokenAccount::VaultA,
                TokenAccount::TreasuryA,
                TokenAccount::VaultB,
                TokenAccount::UserB,
            )
        } else {
            (
                TokenAccount::UserB,
                TokenAccount::VaultB,
                TokenAccount::TreasuryB,
                TokenAccount::VaultA,
                TokenAccount::UserA,
            )
        };
        let mut plan: Vec<Movement> = Vec::new();
        if to_vault > 0 {
            plan.push(Movement::Transfer { from: user_in, to: vault_in, amount: to_vault });
        }
        if protocol_fee > 0 {
            plan.push(Movement::Transfer { from: user_in, to: treasury_in, amount: protocol_fee });
        }
        plan.push(Movement::Transfer { from: vault_out, to: user_out, amount: swap_result.withdraw });
        assert(plan@ =~= swap_plan(is_a, to_vault, protocol_fee, swap_result.withdraw));
        Ok(plan)
    }

    /// Swaps `amount_in` of one token for the other. Refused while the pool is
    /// locked and for a zero amount; otherwise the curve prices the trade and
    /// `settle` finishes it.
    pub fn swap<F>(&self, is_a: bool, amount_in: u64, min_out: u64, price: F) -> (r: Result<
        Vec<Movement>,
        AmmError,
    >) where F: FnOnce(u64, u64, u64, u16, u8, u64, u64) -> Result<SwapResult, CurveError>
        requires
            self.pool.wf(),
            !self.pool.locked && amount_in > 0 ==> price.requires(
                self.price_args(is_a, amount_in, min_out),
            ),
        ensures
            self.pool.locked ==> plan_result(r) == Err::<Seq<Movement>, AmmError>(
                AmmError::PoolLocked,
            ),
            !self.pool.locked && amount_in == 0 ==> plan_result(r) == Err::<
                Seq<Movement>,
                AmmError,
            >(AmmError::ZeroAmount),
            !self.pool.locked && amount_in > 0 ==> exists|priced: Result<SwapResult, CurveError>|
                {
                    &&& #[trigger] price.ensures(self.price_args(is_a, amount_in, min_out), priced)
                    &&& plan_result(r) == self.settlement(is_a, amount_in, priced)
                },
            self.swap_result(is_a, amount_in, min_out, price, plan_result(r)),
    {
        if self.pool.locked {
            let r = Err(AmmError::PoolLocked);
            assert(self.outcome(is_a, amount_in, Err(CurveError::Overflow)) == plan_result(r));
            return r;
        }
        if amount_in == 0 {
            let r = Err(AmmError::ZeroAmount);
            assert(self.outcome(is_a, amount_in, Err(CurveError::Overflow)) == plan_result(r));
            return r;
        }
        let (reserve_in, reserve_out) = if is_a {
            (self.vault_a, self.vault_b)
        } else {
            (self.vault_b, self.vault_a)
        };
        let fee_bps: u16 = self.pool.lp_fee_bps + self.pool.protocol_fee_bps;
        let priced = price(
            reserve_in,
            reserve_out,
            self.lp_supply,
            fee_bps,
            LP_DECIMALS,
            amount_in,
            min_out,
        );
        let r = self.settle(is_a, amount_in, priced);
        assert(self.outcome(is_a, amount_in, priced) == plan_result(r));
        r
    }
}

/// A swap from B to A is priced exactly like the mirrored swap from A to B:
/// for two pools with the same fees and LP supply whose reserves are swapped,
/// the curve is asked the same question, and for the same answer the same
/// amounts stay in the vault, go to the treasury and are paid to the user.
pub proof fn lemma_swap_mirror(
    p1: Swap,
    p2: Swap,
    amount_in: u64,
    min_out: u64,
    priced: Result<SwapResult, CurveError>,
)
    requires
        p1.pool.lp_fee_bps == p2.pool.lp_fee_bps,
        p1.pool.protocol_fee_bps == p2.pool.protocol_fee_bps,
        p1.pool.locked == p2.pool.locked,
        p1.lp_supply == p2.lp_supply,
        p1.vault_a == p2.vault_b,
        p1.vault_b == p2.vault_a,
    ensures
        p1.price_args(false, amount_in, min_out) == p2.price_args(true, amount_in, min_out),
        p1.settlement_amounts(amount_in, priced) == p2.settlement_amounts(amount_in, priced),
        p1.settlement(false, amount_in, priced) is Ok <==> p2.settlement(true, amount_in, priced) is Ok,
        p1.settlement(false, amount_in, priced) is Err ==> p1.settlement(false, amount_in, priced)
            == p2.settlement(true, amount_in, priced),
{
}

/// Mirrored swaps agree across two calls: with a pricing that gives one
/// answer to one question, a B-to-A swap on a pool holding (X, Y) and an
/// A-to-B swap on a pool with the same fees, lock and LP supply holding
/// (Y, X) both fail with the same error, or both succeed moving the same
/// amounts: the same input into the vault, the same fee to the treasury, the
/// same payout to the user.
pub proof fn lemma_mirrored_swaps_agree<F: FnOnce(u64, u64, u64, u16, u8, u64, u64) -> Result<
    SwapResult,
    CurveError,
>>(
    p1: Swap,
    p2: Swap,
    amount_in: u64,
    min_out: u64,
    price: F,
    r1: Result<Seq<Movement>, AmmError>,
    r2: Result<Seq<Movement>, AmmError>,
)
    requires
        p1.pool.lp_fee_bps == p2.pool.lp_fee_bps,
        p1.pool.protocol_fee_bps == p2.pool.protocol_fee_bps,
        p1.pool.locked == p2.pool.locked,
        p1.lp_supply == p2.lp_supply,
        p1.vault_a == p2.vault_b,
        p1.vault_b == p2.vault_a,
        forall|
            args: (u64, u64, u64, u16, u8, u64, u64),
            q1: Result<SwapResult, CurveError>,
            q2: Result<SwapResult, CurveError>,
        | #[trigger] price.ensures(args, q1) && #[trigger] price.ensures(args, q2) ==> q1 == q2,
        p1.swap_result(false, amount_in, min_out, price, r1),
        p2.swap_result(true, amount_in, min_out, price, r2),
    ensures
        r1 is Ok <==> r2 is Ok,
        r1 is Err ==> r1 == r2,
        r1 is Ok ==> exists|to_vault: u64, to_treasury: u64, withdraw: u64|
            {
                &&& r1 == Ok::<Seq<Movement>, AmmError>(
                    swap_plan(false, to_vault, to_treasury, withdraw),
                )
                &&& r2 == Ok::<Seq<Movement>, AmmError>(
                    #[trigger] swap_plan(true, to_vault, to_treasury, withdraw),
                )
            },
{
    let q1 = choose|q: Result<SwapResult, CurveError>|
        {
            &&& !p1.pool.locked && amount_in > 0 ==> price.ensures(
                p1.price_args(false, amount_in, min_out),
                q,
            )
            &&& #[trigger] p1.outcome(false, amount_in, q) == r1
        };
    let q2 = choose|q: Result<SwapResult, CurveError>|
        {
            &&& !p2.pool.locked && amount_in > 0 ==> price.ensures(
                p2.price_args(true, amount_in, min_out),
                q,
            )
            &&& #[trigger] p2.outcome(true, amount_in, q) == r2
        };
    if !p1.pool.locked && amount_in > 0 {
        lemma_swap_mirror(p1, p2, amount_in, min_out, q1);
        assert(q1 == q2);
        if r1 is Ok {
            let (v, f, w) = p1.settlement_amounts(amount_in, q1)->Ok_0;
            assert(swap_plan(true, v, f, w) == swap_plan(true, v, f, w));
        }
    }
}

/// The constant product does not shrink, provided the curve's answer does
/// not shrink it when the whole fee is withheld from the input: if the
/// reserves, with the input less the whole fee (`amount_in * total_fee_bps /
/// BPS`) added and the payout taken out, hold at least the old product, then
/// so do the reserves after the swap's movements, which keep in the vault all
/// but the protocol's share of the fee.
pub proof fn lemma_swap_keeps_product(
    swap: Swap,
    is_a: bool,
    amount_in: u64,
    priced: Result<SwapResult, CurveError>,
)
    requires
        swap.pool.wf(),
        swap.settlement(is_a, amount_in, priced) is Ok,
        ({
            let s = priced->Ok_0;
            let whole_fee = (amount_in * swap.pool.total_fee_bps()) / (BPS as int);
            &&& s.deposit >= whole_fee
            &&& s.withdraw <= swap.reserve_out(is_a)
            &&& (swap.reserve_in(is_a) + s.deposit - whole_fee) * (swap.reserve_out(is_a)
                - s.withdraw) >= swap.reserve_in(is_a) * swap.reserve_out(is_a)
        }),
    ensures
        ({
            let plan = swap.settlement(is_a, amount_in, priced)->Ok_0;
            let new_in = swap.reserve_in(is_a) + net_change(plan, vault_in(is_a));
            let new_out = swap.reserve_out(is_a) + net_change(plan, vault_out(is_a));
            &&& new_in * new_out >= swap.reserve_in(is_a) * swap.reserve_out(is_a)
        }),
{
    let s = priced->Ok_0;
    let p = swap.pool.protocol_fee_bps;
    let t = swap.pool.total_fee_bps();
    let fee = protocol_fee(amount_in, p);
    let whole_fee = (amount_in * t) / (BPS as int);
    lemma_swap_fee_split(swap, is_a, amount_in, priced);
    assert(fee <= whole_fee) by (nonlinear_arith)
        requires
            fee == (amount_in * p) / 10000,
            whole_fee == (amount_in * t) / 10000,
            p <= t,
            amount_in >= 0,
    ;
    let r_in = swap.reserve_in(is_a) as int;
    let r_out = swap.reserve_out(is_a) as int;
    let new_in = r_in + s.deposit - fee;
    let new_out = r_out - s.withdraw;
    let low_in = r_in + s.deposit - whole_fee;
    assert(new_in * new_out >= low_in * new_out) by (nonlinear_arith)
        requires
            new_in >= low_in,
            new_out >= 0,
    ;
}

/// The input-side accounts of a swap (user, vault, treasury) and the
/// output-side accounts (vault, user).
pub open spec fn user_in(is_a: bool) -> TokenAccount {
    if is_a { TokenAccount::UserA } else { TokenAccount::UserB }
}

pub open spec fn vault_in(is_a: bool) -> TokenAccount {
    if is_a { TokenAccount::VaultA } else { TokenAccount::VaultB }
}

pub open spec fn treasury_in(is_a: bool) -> TokenAccount {
    if is_a { TokenAccount::TreasuryA } else { TokenAccount::TreasuryB }
}

pub open spec fn vault_out(is_a: bool) -> TokenAccount {
    if is_a { TokenAccount::VaultB } else { TokenAccount::VaultA }
}

pub open spec fn user_out(is_a: bool) -> TokenAccount {
    if is_a { TokenAccount::UserB } else { TokenAccount::UserA }
}

pub open spec fn treasury_out(is_a: bool) -> TokenAccount {
    if is_a { TokenAccount::TreasuryB } else { TokenAccount::TreasuryA }
}

/// A swap's transfers take `to_vault + to_treasury` from the user in the
/// input token, split it between the input vault and the input treasury,
/// pay `withdraw` out of the output vault to the user, and touch nothing else.
pub proof fn lemma_swap_plan_effect(is_a: bool, to_vault: u64, to_treasury: u64, withdraw: u64)
    ensures
        ({
            let plan = swap_plan(is_a, to_vault, to_treasury, withdraw);
            &&& plan_wf(plan)
            &&& net_change(plan, user_in(is_a)) == -(to_vault + to_treasury)
            &&& net_change(plan, vault_in(is_a)) == to_vault
            &&& net_change(plan, treasury_in(is_a)) == to_treasury
            &&& net_change(plan, vault_out(is_a)) == -(withdraw as int)
            &&& net_change(plan, user_out(is_a)) == withdraw
            &&& net_change(plan, treasury_out(is_a)) == 0
            &&& net_change(plan, TokenAccount::UserLp) == 0
            &&& supply_change(plan) == 0
        }),
{
    let e = Seq::<Movement>::empty();
    let m1 = Movement::Transfer { from: user_in(is_a), to: vault_in(is_a), amount: to_vault };
    let m2 = Movement::Transfer { from: user_in(is_a), to: treasury_in(is_a), amount: to_treasury };
    let m3 = Movement::Transfer { from: vault_out(is_a), to: user_out(is_a), amount: withdraw };
    lemma_plan_empty();
    let s1 = if to_vault > 0 { e.push(m1) } else { e };
    lemma_plan_push(e, m1);
    let s2 = if to_treasury > 0 { s1.push(m2) } else { s1 };
    lemma_plan_push(s1, m2);
    lemma_plan_push(s2, m3);
    assert(swap_plan(is_a, to_vault, to_treasury, withdraw) =~= s2.push(m3));
}

/// The fee split of a swap: when it succeeds, the user pays in exactly the
/// curve's deposit; the treasury receives the protocol fee, which is
/// `amount_in * protocol_fee_bps / BPS` rounded down and never more than
/// `amount_in`; the input vault keeps the rest; the user receives a payout
/// that is never zero, out of the output vault; and the LP supply does not change.
pub proof fn lemma_swap_fee_split(
    swap: Swap,
    is_a: bool,
    amount_in: u64,
    priced: Result<SwapResult, CurveError>,
)
    requires
        swap.pool.wf(),
        swap.settlement(is_a, amount_in, priced) is Ok,
    ensures
        ({
            let plan = swap.settlement(is_a, amount_in, priced)->Ok_0;
            let s = priced->Ok_0;
            let fee = protocol_fee(amount_in, swap.pool.protocol_fee_bps);
            &&& 0 <= fee <= amount_in
            &&& plan_wf(plan)
            &&& net_change(plan, user_in(is_a)) == -(s.deposit as int)
            &&& net_change(plan, treasury_in(is_a)) == fee
            &&& net_change(plan, vault_in(is_a)) == s.deposit - fee
            &&& net_change(plan, vault_out(is_a)) == -(s.withdraw as int)
            &&& net_change(plan, user_out(is_a)) == s.withdraw
            &&& s.withdraw > 0
            &&& net_change(plan, treasury_out(is_a)) == 0
            &&& supply_change(plan) == 0
        }),
{
    let s = priced->Ok_0;
    let bps = swap.pool.protocol_fee_bps;
    let fee = protocol_fee(amount_in, bps);
    assert(0 <= fee <= amount_in) by (nonlinear_arith)
        requires
            fee == (amount_in * bps) / 10000,
            bps <= 10000,
    ;
    lemma_swap_plan_effect(is_a, (s.deposit - fee) as u64, fee as u64, s.withdraw);
}

/// A priced swap pays out whatever the vaults hold. The curve is asked with
/// the input token's reserve first, the LP supply, the two fees together,
/// six LP decimals, the amount in and the least acceptable payout. When the
/// pool is unlocked, the amount is positive and the curve answers a non-zero
/// payout and a deposit that covers the protocol fee, the swap succeeds: the
/// user pays in the deposit, the treasury of the input token receives
/// `amount_in * protocol_fee_bps / 10_000` rounded down, the input vault the
/// rest, and the output vault pays the user exactly the payout. It is refused
/// only for the lock, a zero amount, a pricing error, a zero payout or a
/// deposit below the protocol fee.
pub proof fn lemma_priced_swap_pays_out(
    swap: Swap,
    is_a: bool,
    amount_in: u64,
    min_out: u64,
    priced: Result<SwapResult, CurveError>,
)
    requires
        swap.pool.wf(),
    ensures
        swap.price_args(is_a, amount_in, min_out) == (
            if is_a { swap.vault_a } else { swap.vault_b },
            if is_a { swap.vault_b } else { swap.vault_a },
            swap.lp_supply,
            (swap.pool.lp_fee_bps + swap.pool.protocol_fee_bps) as u16,
            6u8,
            amount_in,
            min_out,
        ),
        ({
            let fee = (amount_in * swap.pool.protocol_fee_bps) / 10_000;
            !swap.pool.locked && amount_in > 0 && priced is Ok && priced->Ok_0.withdraw > 0
                && priced->Ok_0.deposit >= fee ==> {
                let r = swap.outcome(is_a, amount_in, priced);
                let plan = r->Ok_0;
                let d = priced->Ok_0.deposit as int;
                let w = priced->Ok_0.withdraw as int;
                &&& r is Ok
                &&& plan_wf(plan)
                &&& supply_change(plan) == 0
                &&& net_change(plan, TokenAccount::UserLp) == 0
                &&& is_a ==> {
                    &&& net_change(plan, TokenAccount::UserA) == -d
                    &&& net_change(plan, TokenAccount::TreasuryA) == fee
                    &&& net_change(plan, TokenAccount::VaultA) == d - fee
                    &&& net_change(plan, TokenAccount::VaultB) == -w
                    &&& net_change(plan, TokenAccount::UserB) == w
                    &&& net_change(plan, TokenAccount::TreasuryB) == 0
                }
                &&& !is_a ==> {
                    &&& net_change(plan, TokenAccount::UserB) == -d
                    &&& net_change(plan, TokenAccount::TreasuryB) == fee
                    &&& net_change(plan, TokenAccount::VaultB) == d - fee
                    &&& net_change(plan, TokenAccount::VaultA) == -w
                    &&& net_change(plan, TokenAccount::UserA) == w
                    &&& net_change(plan, TokenAccount::TreasuryA) == 0
                }
            }
        }),
        swap.outcome(is_a, amount_in, priced) is Err ==> {
            let e = swap.outcome(is_a, amount_in, priced)->Err_0;
            let fee = (amount_in * swap.pool.protocol_fee_bps) / 10_000;
            ||| swap.pool.locked && e == AmmError::PoolLocked
            ||| amount_in == 0 && e == AmmError::ZeroAmount
            ||| priced is Err && e == curve_error_to_amm(priced->Err_0)
            ||| priced is Ok && priced->Ok_0.withdraw == 0 && e == AmmError::InsufficientLiquidity
            ||| priced is Ok && priced->Ok_0.deposit < fee && e == AmmError::Underflow
        },
{
    let fee = (amount_in * swap.pool.protocol_fee_bps) / 10_000;
    if !swap.pool.locked && amount_in > 0 && priced is Ok && priced->Ok_0.withdraw > 0
        && priced->Ok_0.deposit >= fee {
        assert(protocol_fee(amount_in, swap.pool.protocol_fee_bps) == fee);
        assert(swap.settlement(is_a, amount_in, priced) is Ok);
        assert(swap.outcome(is_a, amount_in, priced) == swap.settlement(is_a, amount_in, priced));
        lemma_swap_fee_split(swap, is_a, amount_in, priced);
        let sr = priced->Ok_0;
        lemma_swap_plan_effect(is_a, (sr.deposit - fee) as u64, fee as u64, sr.withdraw);
        if is_a {
            assert(user_in(is_a) == TokenAccount::UserA);
            assert(treasury_out(is_a) == TokenAccount::TreasuryB);
        } else {
            assert(user_in(is_a) == TokenAccount::UserB);
            assert(treasury_out(is_a) == TokenAccount::TreasuryA);
        }
    }
}

} // verus!

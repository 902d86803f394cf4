use vstd::prelude::*;

use crate::error::AmmError;

verus! {

/// The three tokens an instruction can move.
#[derive(Debug, Clone, Copy, PartialEq, Eq, Structural)]
pub enum Token {
    A,
    B,
    Lp,
}

/// The token accounts that an instruction touches.
#[derive(Debug, Clone, Copy, PartialEq, Eq, Structural)]
pub enum TokenAccount {
    /// The user's account of token A.
    UserA,
    /// The user's account of token B.
    UserB,
    /// The user's account of LP tokens.
    UserLp,
    /// The pool's reserve of token A.
    VaultA,
    /// The pool's reserve of token B.
    VaultB,
    /// The treasury's account of token A.
    TreasuryA,
    /// The treasury's account of token B.
    TreasuryB,
}

impl TokenAccount {
    /// The token that the account holds.
    pub open spec fn token(self) -> Token {
        match self {
            TokenAccount::UserA | TokenAccount::VaultA | TokenAccount::TreasuryA => Token::A,
            TokenAccount::UserB | TokenAccount::VaultB | TokenAccount::TreasuryB => Token::B,
            TokenAccount::UserLp => Token::Lp,
        }
    }

    /// Whether the pool, and not the user, must sign to take tokens out of it.
    pub fn pool_owned(&self) -> (r: bool)
        ensures
            r == (*self == TokenAccount::VaultA || *self == TokenAccount::VaultB),
    {
        match self {
            TokenAccount::VaultA | TokenAccount::VaultB => true,
            _ => false,
        }
    }
}

/// One token operation that an instruction asks the token program to perform.
#[derive(Debug, Clone, Copy, PartialEq, Eq, Structural)]
pub enum Movement {
    /// Move `amount` tokens from one account to another of the same token.
    Transfer { from: TokenAccount, to: TokenAccount, amount: u64 },
    /// Create `amount` LP tokens in an account; the pool signs.
    MintTo { to: TokenAccount, amount: u64 },
    /// Destroy `amount` LP tokens held in an account; the user signs.
    Burn { from: TokenAccount, amount: u64 },
}

impl Movement {
    /// A movement is well formed when it only ever moves one token between
    /// accounts of that token, and mints or burns only LP tokens.
    pub open spec fn wf(self) -> bool {
        match self {
            Movement::Transfer { from, to, .. } => from.token() == to.token() && from != to,
            Movement::MintTo { to, .. } => to.token() == Token::Lp,
            Movement::Burn { from, .. } => from.token() == Token::Lp,
        }
    }

    /// By how much the movement changes the balance of an account.
    pub open spec fn delta(self, account: TokenAccount) -> int {
        match self {
            Movement::Transfer { from, to, amount } => {
                (if to == account { amount as int } else { 0 }) - (if from == account {
                    amount as int
                } else {
                    0
                })
            },
            Movement::MintTo { to, amount } => if to == account { amount as int } else { 0 },
            Movement::Burn { from, amount } => if from == account { -(amount as int) } else { 0 },
        }
    }

    /// By how much the movement changes the LP supply.
    pub open spec fn supply_delta(self) -> int {
        match self {
            Movement::Transfer { .. } => 0,
            Movement::MintTo { amount, .. } => amount as int,
            Movement::Burn { amount, .. } => -(amount as int),
        }
    }
}

/// The plan inside an instruction's result, as a sequence.
pub open spec fn plan_result(r: Result<Vec<Movement>, AmmError>) -> Result<Seq<Movement>, AmmError> {
    match r {
        Ok(v) => Ok(v@),
        Err(e) => Err(e),
    }
}

/// Every movement of the plan is well formed.
pub open spec fn plan_wf(plan: Seq<Movement>) -> bool {
    forall|i: int| 0 <= i < plan.len() ==> #[trigger] plan[i].wf()
}

/// The net change a whole plan makes to one account's balance.
pub open spec fn net_change(plan: Seq<Movement>, account: TokenAccount) -> int
    decreases plan.len(),
{
    if plan.len() == 0 {
        0
    } else {
        net_change(plan.drop_last(), account) + plan.last().delta(account)
    }
}

/// The net change a whole plan makes to the LP supply.
pub open spec fn supply_change(plan: Seq<Movement>) -> int
    decreases plan.len(),
{
    if plan.len() == 0 {
        0
    } else {
        supply_change(plan.drop_last()) + plan.last().supply_delta()
    }
}

/// The net change a plan makes to all the accounts of one token together.
pub open spec fn token_change(plan: Seq<Movement>, token: Token) -> int {
    match token {
        Token::A => net_change(plan, TokenAccount::UserA) + net_change(plan, TokenAccount::VaultA)
            + net_change(plan, TokenAccount::TreasuryA),
        Token::B => net_change(plan, TokenAccount::UserB) + net_change(plan, TokenAccount::VaultB)
            + net_change(plan, TokenAccount::TreasuryB),
        Token::Lp => net_change(plan, TokenAccount::UserLp),
    }
}

/// Appending a movement adds its effect to the plan's net changes, and keeps
/// a well-formed plan well formed when the movement is.
pub proof fn lemma_plan_push(plan: Seq<Movement>, m: Movement)
    ensures
        forall|account: TokenAccount| #[trigger]
            net_change(plan.push(m), account) == net_change(plan, account) + m.delta(account),
        supply_change(plan.push(m)) == supply_change(plan) + m.supply_delta(),
        plan_wf(plan) && m.wf() ==> plan_wf(plan.push(m)),
{
    assert(plan.push(m).drop_last() =~= plan);
    assert forall|account: TokenAccount| #[trigger]
        net_change(plan.push(m), account) == net_change(plan, account) + m.delta(account) by {}
    if plan_wf(plan) && m.wf() {
        assert forall|i: int| 0 <= i < plan.push(m).len() implies #[trigger] plan.push(m)[i].wf() by {
            if i < plan.len() {
                assert(plan.push(m)[i] == plan[i]);
            }
        }
    }
}

/// The empty plan changes nothing.
pub proof fn lemma_plan_empty()
    ensures
        forall|account: TokenAccount| #[trigger] net_change(Seq::<Movement>::empty(), account) == 0,
        supply_change(Seq::<Movement>::empty()) == 0,
        plan_wf(Seq::<Movement>::empty()),
{
}

/// Conservation: a well-formed plan neither creates nor destroys token A or
/// token B, and the LP tokens that it adds to accounts are exactly those by
/// which it grows the LP supply.
pub proof fn lemma_plan_conserves(plan: Seq<Movement>)
    requires
        plan_wf(plan),
    ensures
        token_change(plan, Token::A) == 0,
        token_change(plan, Token::B) == 0,
        token_change(plan, Token::Lp) == supply_change(plan),
    decreases plan.len(),
{
    if plan.len() > 0 {
        let rest = plan.drop_last();
        assert(plan_wf(rest)) by {
            assert forall|i: int| 0 <= i < rest.len() implies #[trigger] rest[i].wf() by {
                assert(rest[i] == plan[i]);
            }
        }
        lemma_plan_conserves(rest);
        assert(plan.last().wf()) by {
            assert(plan[plan.len() - 1].wf());
        }
    }
}

} // verus!

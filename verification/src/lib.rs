//! A constant-product AMM pool: the rules of its instructions, each a
//! function from the pool's state and the user's request to the token
//! movements that carry it out, or to the error that refuses it.
pub mod constants;
pub mod curve;
pub mod error;
pub mod instructions;
pub mod movement;
pub mod state;

pub use constants::{BPS, LP_DECIMALS, LP_SEED, PRECISION, SEED};
pub use curve::{SwapResult, XYAmounts};
pub use error::{AmmError, CurveError};
pub use instructions::add_liquidity::AddLiquidity;
pub use instructions::init_pool::{InitPool, InitPoolBumps};
pub use instructions::remove_liquidity::RemoveLiquidity;
pub use instructions::swap::Swap;
pub use instructions::toggle_lock::ToggleLock;
pub use movement::{Movement, Token, TokenAccount};
pub use state::{Address, Pool};

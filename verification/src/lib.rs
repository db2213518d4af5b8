//! Accrued-fee accounting for concentrated-liquidity positions.
//!
//! Given a snapshot of a pool, of the two boundary ticks of a position and of
//! the position's last checkpoint, [`position::get_collectable_token_amounts`]
//! computes the token amounts the position may collect. The fee growth inside
//! the position's range comes from [`fee_growth`], the amounts earned from it
//! from [`tokens_owed`]. All 256-bit arithmetic is carried out on
//! [`uint256::U256`], whose operations are proved against integer arithmetic
//! modulo 2^256.
//!
//! [`metadata::get_token_svg`] takes the image out of a position token's
//! metadata URI.

pub mod fee_growth;
pub mod metadata;
pub mod position;
pub mod snapshot;
pub mod text;
pub mod tick;
pub mod tokens_owed;
pub mod uint256;

//! The values read from a pool and a position at one reference block.
//!
//! The fee computation trusts that all snapshots handed to it were taken at
//! the same block; nothing in a snapshot lets it detect a mismatch.

use crate::tick::TickRange;
use crate::uint256::U256;
use vstd::prelude::*;

verus! {

/// Pool-wide state: the current tick and the global fee-growth accumulators,
/// one per token, as Q128.128 numbers that wrap modulo 2^256.
#[derive(Clone, Copy, Debug, PartialEq, Eq, Structural)]
pub struct PoolSnapshot {
    pub current_tick: i32,
    pub fee_growth_global_0: U256,
    pub fee_growth_global_1: U256,
}

/// The fee growth recorded on the far side of one boundary tick, per token.
#[derive(Clone, Copy, Debug, PartialEq, Eq, Structural)]
pub struct BoundaryTickState {
    pub fee_growth_outside_0: U256,
    pub fee_growth_outside_1: U256,
}

/// The last recorded checkpoint of a position.
#[derive(Clone, Copy, Debug, PartialEq, Eq, Structural)]
pub struct PositionSnapshot {
    pub range: TickRange,
    pub liquidity: u128,
    pub fee_growth_inside_0_last: U256,
    pub fee_growth_inside_1_last: U256,
    pub tokens_owed_0: u128,
    pub tokens_owed_1: u128,
}

} // verus!

//! The amounts a position may collect, from one consistent snapshot.

use crate::fee_growth::{get_fee_growth_inside, growth_inside};
use crate::snapshot::{BoundaryTickState, PoolSnapshot, PositionSnapshot};
use crate::tick::{locate, TickPosition};
use crate::tokens_owed::{
    accumulate_tokens_owed, collectable, lemma_tokens_owed_monotonic_in_liquidity,
    lemma_unchanged_growth_owes_nothing,
};
use crate::uint256::U256;
use vstd::prelude::*;

verus! {

/// Where the pool's current tick lies relative to the position's range.
pub open spec fn tick_position(pool: PoolSnapshot, position: PositionSnapshot) -> TickPosition {
    locate(
        pool.current_tick as int,
        position.range.lower() as int,
        position.range.upper() as int,
    )
}

/// The collectable amount of token 0: the amount recorded as owed plus
/// `floor(liquidity * (inside - inside_last) / 2^128)`, with the fee growth
/// inside the range derived from the pool and boundary snapshots.
pub open spec fn collectable_token_0(
    pool: PoolSnapshot,
    lower: BoundaryTickState,
    upper: BoundaryTickState,
    position: PositionSnapshot,
) -> nat {
    collectable(
        position.tokens_owed_0 as nat,
        position.liquidity as nat,
        growth_inside(
            tick_position(pool, position),
            pool.fee_growth_global_0@,
            lower.fee_growth_outside_0@,
            upper.fee_growth_outside_0@,
        ),
        position.fee_growth_inside_0_last@,
    )
}

/// The collectable amount of token 1; see [`collectable_token_0`].
pub open spec fn collectable_token_1(
    pool: PoolSnapshot,
    lower: BoundaryTickState,
    upper: BoundaryTickState,
    position: PositionSnapshot,
) -> nat {
    collectable(
        position.tokens_owed_1 as nat,
        position.liquidity as nat,
        growth_inside(
            tick_position(pool, position),
            pool.fee_growth_global_1@,
            lower.fee_growth_outside_1@,
            upper.fee_growth_outside_1@,
        ),
        position.fee_growth_inside_1_last@,
    )
}

/// The real-time collectable amounts of both tokens of a position.
///
/// `lower` and `upper` are the states of the position's two boundary ticks.
/// All four snapshots must stem from the same block; the function cannot
/// tell whether they do.
pub fn get_collectable_token_amounts(
    pool: &PoolSnapshot,
    lower: &BoundaryTickState,
    upper: &BoundaryTickState,
    position: &PositionSnapshot,
) -> (r: (U256, U256))
    ensures
        r.0@ == collectable_token_0(*pool, *lower, *upper, *position),
        r.1@ == collectable_token_1(*pool, *lower, *upper, *position),
{
    let inside: (U256, U256) = get_fee_growth_inside(&position.range, pool, lower, upper);
    accumulate_tokens_owed(position, inside.0, inside.1)
}

/// `position` with another liquidity and all else unchanged.
pub open spec fn with_liquidity(position: PositionSnapshot, liquidity: u128) -> PositionSnapshot {
    PositionSnapshot { liquidity, ..position }
}

/// With the tick range, the pool and the boundary states held fixed, a
/// position with more liquidity never collects less.
pub proof fn lemma_collectable_monotonic_in_liquidity(
    pool: PoolSnapshot,
    lower: BoundaryTickState,
    upper: BoundaryTickState,
    position: PositionSnapshot,
    liquidity_a: u128,
    liquidity_b: u128,
)
    requires
        liquidity_a <= liquidity_b,
    ensures
        collectable_token_0(pool, lower, upper, with_liquidity(position, liquidity_a))
            <= collectable_token_0(pool, lower, upper, with_liquidity(position, liquidity_b)),
        collectable_token_1(pool, lower, upper, with_liquidity(position, liquidity_a))
            <= collectable_token_1(pool, lower, upper, with_liquidity(position, liquidity_b)),
{
    let at: TickPosition = tick_position(pool, position);
    lemma_tokens_owed_monotonic_in_liquidity(
        position.tokens_owed_0 as nat,
        liquidity_a as nat,
        liquidity_b as nat,
        growth_inside(
            at,
            pool.fee_growth_global_0@,
            lower.fee_growth_outside_0@,
            upper.fee_growth_outside_0@,
        ),
        position.fee_growth_inside_0_last@,
    );
    lemma_tokens_owed_monotonic_in_liquidity(
        position.tokens_owed_1 as nat,
        liquidity_a as nat,
        liquidity_b as nat,
        growth_inside(
            at,
            pool.fee_growth_global_1@,
            lower.fee_growth_outside_1@,
            upper.fee_growth_outside_1@,
        ),
        position.fee_growth_inside_1_last@,
    );
}

/// While the fee growth inside the range still equals the position's
/// checkpoint, for both tokens, the position collects exactly the amounts
/// recorded as owed.
pub proof fn lemma_collectable_at_checkpoint(
    pool: PoolSnapshot,
    lower: BoundaryTickState,
    upper: BoundaryTickState,
    position: PositionSnapshot,
)
    requires
        growth_inside(
            tick_position(pool, position),
            pool.fee_growth_global_0@,
            lower.fee_growth_outside_0@,
            upper.fee_growth_outside_0@,
        ) == position.fee_growth_inside_0_last@,
        growth_inside(
            tick_position(pool, position),
            pool.fee_growth_global_1@,
            lower.fee_growth_outside_1@,
            upper.fee_growth_outside_1@,
        ) == position.fee_growth_inside_1_last@,
    ensures
        collectable_token_0(pool, lower, upper, position) == position.tokens_owed_0,
        collectable_token_1(pool, lower, upper, position) == position.tokens_owed_1,
{
    lemma_unchanged_growth_owes_nothing(
        position.tokens_owed_0 as nat,
        position.liquidity as nat,
        position.fee_growth_inside_0_last@,
    );
    lemma_unchanged_growth_owes_nothing(
        position.tokens_owed_1 as nat,
        position.liquidity as nat,
        position.fee_growth_inside_1_last@,
    );
}

} // verus!

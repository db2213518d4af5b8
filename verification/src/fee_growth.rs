//! Fee growth accumulated inside a tick range.

use crate::snapshot::{BoundaryTickState, PoolSnapshot};
use crate::tick::{locate, TickPosition, TickRange};
use crate::uint256::{lemma_wrap256_congruent, lemma_wrap256_quotient, wrap256, U256};
use vstd::prelude::*;

verus! {

/// The fee growth per unit of liquidity inside a range, for one token, from
/// the global accumulator and the accumulators outside the two boundaries.
///
/// Every difference is taken modulo 2^256: the accumulators wrap, and only
/// their differences carry meaning.
pub open spec fn growth_inside(
    position: TickPosition,
    global: nat,
    outside_lower: nat,
    outside_upper: nat,
) -> nat {
    match position {
        TickPosition::Below => wrap256(outside_lower - outside_upper),
        TickPosition::Above => wrap256(outside_upper - outside_lower),
        TickPosition::Within => wrap256(global - outside_lower - outside_upper),
    }
}

/// Computes [`growth_inside`] for one token with wrapping subtraction.
pub fn fee_growth_inside_for(
    position: TickPosition,
    global: U256,
    outside_lower: U256,
    outside_upper: U256,
) -> (r: U256)
    ensures
        r@ == growth_inside(position, global@, outside_lower@, outside_upper@),
        position == TickPosition::Below ==> r@ == wrap256(outside_lower@ - outside_upper@),
        position == TickPosition::Above ==> r@ == wrap256(outside_upper@ - outside_lower@),
        position == TickPosition::Within ==> r@ == wrap256(
            global@ - outside_lower@ - outside_upper@,
        ),
{
    match position {
        TickPosition::Below => outside_lower.wrapping_sub(outside_upper),
        TickPosition::Above => outside_upper.wrapping_sub(outside_lower),
        TickPosition::Within => global.wrapping_sub(outside_lower).wrapping_sub(outside_upper),
    }
}

/// The fee growth inside `range` for both tokens, as of the snapshot.
///
/// The result for each token comes from exactly one of the three cases of
/// [`locate`], chosen by the pool's current tick.
pub fn get_fee_growth_inside(
    range: &TickRange,
    pool: &PoolSnapshot,
    lower: &BoundaryTickState,
    upper: &BoundaryTickState,
) -> (r: (U256, U256))
    ensures
        r.0@ == growth_inside(
            locate(pool.current_tick as int, range.lower() as int, range.upper() as int),
            pool.fee_growth_global_0@,
            lower.fee_growth_outside_0@,
            upper.fee_growth_outside_0@,
        ),
        r.1@ == growth_inside(
            locate(pool.current_tick as int, range.lower() as int, range.upper() as int),
            pool.fee_growth_global_1@,
            lower.fee_growth_outside_1@,
            upper.fee_growth_outside_1@,
        ),
{
    let position: TickPosition = range.locate(pool.current_tick);
    (
        fee_growth_inside_for(
            position,
            pool.fee_growth_global_0,
            lower.fee_growth_outside_0,
            upper.fee_growth_outside_0,
        ),
        fee_growth_inside_for(
            position,
            pool.fee_growth_global_1,
            lower.fee_growth_outside_1,
            upper.fee_growth_outside_1,
        ),
    )
}

/// Adding one constant to the global accumulator and to both outside
/// accumulators, each modulo 2^256, leaves the fee growth inside unchanged
/// while the current tick is outside the range. Inside the range the global
/// accumulator enters once and both outside accumulators are subtracted, so
/// there only the constant zero leaves the result unchanged.
pub proof fn lemma_growth_inside_shift_invariant(
    position: TickPosition,
    global: U256,
    outside_lower: U256,
    outside_upper: U256,
    shift: U256,
)
    requires
        position == TickPosition::Within ==> shift@ == 0,
    ensures
        growth_inside(
            position,
            wrap256((global@ + shift@) as int),
            wrap256((outside_lower@ + shift@) as int),
            wrap256((outside_upper@ + shift@) as int),
        ) == growth_inside(position, global@, outside_lower@, outside_upper@),
{
    let kl: int = lemma_wrap256_quotient((outside_lower@ + shift@) as int);
    let ku: int = lemma_wrap256_quotient((outside_upper@ + shift@) as int);
    let l: int = wrap256((outside_lower@ + shift@) as int) as int;
    let u: int = wrap256((outside_upper@ + shift@) as int) as int;
    lemma_wrap256_congruent(l - u, outside_lower@ - outside_upper@, ku - kl);
    lemma_wrap256_congruent(u - l, outside_upper@ - outside_lower@, kl - ku);
}

/// While the current tick is inside the range, adding one constant to the
/// global accumulator and to both outside accumulators lowers the fee growth
/// inside by that constant, modulo 2^256.
pub proof fn lemma_growth_inside_shift_within_range(
    global: U256,
    outside_lower: U256,
    outside_upper: U256,
    shift: U256,
)
    ensures
        growth_inside(
            TickPosition::Within,
            wrap256((global@ + shift@) as int),
            wrap256((outside_lower@ + shift@) as int),
            wrap256((outside_upper@ + shift@) as int),
        ) == wrap256(
            growth_inside(TickPosition::Within, global@, outside_lower@, outside_upper@) - shift@,
        ),
{
    let kg: int = lemma_wrap256_quotient((global@ + shift@) as int);
    let kl: int = lemma_wrap256_quotient((outside_lower@ + shift@) as int);
    let ku: int = lemma_wrap256_quotient((outside_upper@ + shift@) as int);
    let g: int = wrap256((global@ + shift@) as int) as int;
    let l: int = wrap256((outside_lower@ + shift@) as int) as int;
    let u: int = wrap256((outside_upper@ + shift@) as int) as int;
    let d: int = global@ - outside_lower@ - outside_upper@;
    let kd: int = lemma_wrap256_quotient(d);
    lemma_wrap256_congruent(g - l - u, d - shift@, kl + ku - kg);
    lemma_wrap256_congruent(wrap256(d) - shift@, d - shift@, -kd);
}

/// While the current tick is inside the range, fees that accrue move the
/// global accumulator alone, and the fee growth inside moves with it: adding
/// a constant to the global accumulator adds it to the result, modulo 2^256.
pub proof fn lemma_growth_inside_follows_global(
    global: U256,
    outside_lower: U256,
    outside_upper: U256,
    accrued: U256,
)
    ensures
        growth_inside(
            TickPosition::Within,
            wrap256((global@ + accrued@) as int),
            outside_lower@,
            outside_upper@,
        ) == wrap256(
            (growth_inside(TickPosition::Within, global@, outside_lower@, outside_upper@)
                + accrued@) as int,
        ),
{
    let kg: int = lemma_wrap256_quotient((global@ + accrued@) as int);
    let g: int = wrap256((global@ + accrued@) as int) as int;
    let d: int = global@ - outside_lower@ - outside_upper@;
    let kd: int = lemma_wrap256_quotient(d);
    lemma_wrap256_congruent(g - outside_lower@ - outside_upper@, d + accrued@, -kg);
    lemma_wrap256_congruent((wrap256(d) + accrued@) as int, d + accrued@, -kd);
}

} // verus!

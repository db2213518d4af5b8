//! Token amounts owed to a position from the fee growth inside its range.

use crate::snapshot::PositionSnapshot;
use crate::uint256::{floor_mul_q128, lemma_product_bound, pow2_128, pow2_256, wrap256, U256};
use vstd::prelude::*;

verus! {

/// The tokens a position has earned since its last checkpoint:
/// `floor(liquidity * (inside - inside_last) / 2^128)`, where the growth
/// difference is taken modulo 2^256 and the product at full width.
pub open spec fn tokens_owed_since(liquidity: nat, inside: nat, inside_last: nat) -> nat {
    floor_mul_q128(wrap256(inside - inside_last), liquidity)
}

/// The total a position may collect: what was recorded as owed at the last
/// checkpoint plus what it has earned since.
pub open spec fn collectable(owed: nat, liquidity: nat, inside: nat, inside_last: nat) -> nat {
    owed + tokens_owed_since(liquidity, inside, inside_last)
}

/// The tokens earned since the last checkpoint, for both tokens.
pub fn get_tokens_owed(
    fee_growth_inside_0_last: U256,
    fee_growth_inside_1_last: U256,
    liquidity: u128,
    fee_growth_inside_0: U256,
    fee_growth_inside_1: U256,
) -> (r: (U256, U256))
    ensures
        r.0@ == tokens_owed_since(
            liquidity as nat,
            fee_growth_inside_0@,
            fee_growth_inside_0_last@,
        ),
        r.1@ == tokens_owed_since(
            liquidity as nat,
            fee_growth_inside_1@,
            fee_growth_inside_1_last@,
        ),
{
    (
        fee_growth_inside_0.wrapping_sub(fee_growth_inside_0_last).mul_shr_128(liquidity),
        fee_growth_inside_1.wrapping_sub(fee_growth_inside_1_last).mul_shr_128(liquidity),
    )
}

/// Adds the tokens earned since the last checkpoint to the amounts recorded
/// as owed there. The sums are exact: they never reach 2^256.
pub fn accumulate_tokens_owed(
    position: &PositionSnapshot,
    fee_growth_inside_0: U256,
    fee_growth_inside_1: U256,
) -> (r: (U256, U256))
    ensures
        r.0@ == collectable(
            position.tokens_owed_0 as nat,
            position.liquidity as nat,
            fee_growth_inside_0@,
            position.fee_growth_inside_0_last@,
        ),
        r.1@ == collectable(
            position.tokens_owed_1 as nat,
            position.liquidity as nat,
            fee_growth_inside_1@,
            position.fee_growth_inside_1_last@,
        ),
        fee_growth_inside_0 == position.fee_growth_inside_0_last ==> r.0@
            == position.tokens_owed_0,
        fee_growth_inside_1 == position.fee_growth_inside_1_last ==> r.1@
            == position.tokens_owed_1,
{
    let earned: (U256, U256) = get_tokens_owed(
        position.fee_growth_inside_0_last,
        position.fee_growth_inside_1_last,
        position.liquidity,
        fee_growth_inside_0,
        fee_growth_inside_1,
    );
    proof {
        lemma_collectable_fits(
            position.tokens_owed_0 as nat,
            position.liquidity as nat,
            fee_growth_inside_0@,
            position.fee_growth_inside_0_last@,
        );
        lemma_collectable_fits(
            position.tokens_owed_1 as nat,
            position.liquidity as nat,
            fee_growth_inside_1@,
            position.fee_growth_inside_1_last@,
        );
        lemma_unchanged_growth_owes_nothing(
            position.tokens_owed_0 as nat,
            position.liquidity as nat,
            fee_growth_inside_0@,
        );
        lemma_unchanged_growth_owes_nothing(
            position.tokens_owed_1 as nat,
            position.liquidity as nat,
            fee_growth_inside_1@,
        );
    }
    (
        U256::from_u128(position.tokens_owed_0).wrapping_add(earned.0),
        U256::from_u128(position.tokens_owed_1).wrapping_add(earned.1),
    )
}

/// With a 128-bit liquidity and a 128-bit recorded amount, the collectable
/// total is below 2^256, so adding it up never wraps.
pub proof fn lemma_collectable_fits(owed: nat, liquidity: nat, inside: nat, inside_last: nat)
    requires
        owed < pow2_128(),
        liquidity < pow2_128(),
    ensures
        tokens_owed_since(liquidity, inside, inside_last) <= pow2_256() - pow2_128() - 1,
        collectable(owed, liquidity, inside, inside_last) < pow2_256(),
{
    lemma_product_bound(wrap256(inside - inside_last), liquidity);
}

/// More liquidity never earns less: with the fee growth and the checkpoint
/// held fixed, the tokens earned, and with them the collectable total, do not
/// decrease when the liquidity increases.
pub proof fn lemma_tokens_owed_monotonic_in_liquidity(
    owed: nat,
    liquidity_a: nat,
    liquidity_b: nat,
    inside: nat,
    inside_last: nat,
)
    requires
        liquidity_a <= liquidity_b,
    ensures
        tokens_owed_since(liquidity_a, inside, inside_last) <= tokens_owed_since(
            liquidity_b,
            inside,
            inside_last,
        ),
        collectable(owed, liquidity_a, inside, inside_last) <= collectable(
            owed,
            liquidity_b,
            inside,
            inside_last,
        ),
{
    let delta: nat = wrap256(inside - inside_last);
    assert(delta * liquidity_a <= delta * liquidity_b) by (nonlinear_arith)
        requires
            liquidity_a <= liquidity_b,
    ;
    vstd::arithmetic::div_mod::lemma_div_is_ordered(
        (delta * liquidity_a) as int,
        (delta * liquidity_b) as int,
        pow2_128() as int,
    );
}

/// While the fee growth inside equals the checkpoint, nothing has been
/// earned: the collectable total is the recorded amount, whatever the
/// liquidity.
pub proof fn lemma_unchanged_growth_owes_nothing(owed: nat, liquidity: nat, inside: nat)
    ensures
        tokens_owed_since(liquidity, inside, inside) == 0,
        collectable(owed, liquidity, inside, inside) == owed,
{
    assert(wrap256(inside - inside) == 0);
    assert(0 * liquidity == 0) by (nonlinear_arith);
}

} // verus!

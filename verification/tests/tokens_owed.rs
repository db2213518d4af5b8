use v3_position::snapshot::PositionSnapshot;
use v3_position::tick::TickRange;
use v3_position::tokens_owed::{accumulate_tokens_owed, get_tokens_owed};
use v3_position::uint256::U256;

fn n(x: u128) -> U256 {
    U256::from_u128(x)
}

fn one() -> U256 {
    U256 { hi: 1, lo: 0 }
}

fn position(liquidity: u128, last0: U256, last1: U256, owed0: u128, owed1: u128) -> PositionSnapshot {
    PositionSnapshot {
        range: TickRange::new(-100, 100).unwrap(),
        liquidity,
        fee_growth_inside_0_last: last0,
        fee_growth_inside_1_last: last1,
        tokens_owed_0: owed0,
        tokens_owed_1: owed1,
    }
}

#[test]
fn one_unit_of_growth_pays_the_liquidity() {
    let r = get_tokens_owed(U256::zero(), U256::zero(), 1_000_000, one(), one());
    assert_eq!(r, (n(1_000_000), n(1_000_000)));
    let total = accumulate_tokens_owed(&position(1_000_000, U256::zero(), U256::zero(), 0, 0), one(), one());
    assert_eq!(total, (n(1_000_000), n(1_000_000)));
}

#[test]
fn fractions_round_down() {
    // Growth of 1.5 and of 2^-128 on a liquidity of 3.
    let r = get_tokens_owed(U256::zero(), U256::zero(), 3, U256 { hi: 1, lo: 1 << 127 }, n(1));
    assert_eq!(r, (n(4), n(0)));
    // Growth just below 1.0 on a liquidity of 1.
    let r = get_tokens_owed(n(1), n(0), 1, n(0), n(u128::MAX));
    assert_eq!(r.1, n(0));
}

#[test]
fn the_growth_difference_wraps() {
    // The counter wrapped between the checkpoint and now: last = 2^256 - 2^128, now = 2^128.
    let last = U256 { hi: u128::MAX, lo: 0 };
    let now = one();
    let r = get_tokens_owed(last, last, 10, now, now);
    assert_eq!(r, (n(20), n(20)));
    // A counter that seems to have gone back is a wrap too: 0 - 1.0 = 2^256 - 2^128.
    let r = get_tokens_owed(one(), one(), 1, U256::zero(), U256::zero());
    assert_eq!(r.0, U256 { hi: 0, lo: u128::MAX });
}

#[test]
fn the_product_keeps_its_full_width() {
    // (2^256 - 1) * (2^128 - 1) / 2^128 needs 384 bits before the division.
    let all = U256 { hi: u128::MAX, lo: u128::MAX };
    let r = get_tokens_owed(U256::zero(), U256::zero(), u128::MAX, all, n(0));
    assert_eq!(r.0, U256 { hi: u128::MAX - 1, lo: u128::MAX });
    assert_eq!(r.1, n(0));
}

#[test]
fn the_largest_total_does_not_wrap() {
    let all = U256 { hi: u128::MAX, lo: u128::MAX };
    let p = position(u128::MAX, U256::zero(), U256::zero(), u128::MAX, 5);
    let r = accumulate_tokens_owed(&p, all, all);
    // 2^256 - 2^128 - 1 + 2^128 - 1 = 2^256 - 2.
    assert_eq!(r.0, U256 { hi: u128::MAX, lo: u128::MAX - 1 });
    assert_eq!(r.1, U256 { hi: u128::MAX, lo: 4 });
}

#[test]
fn recorded_amounts_are_added() {
    let p = position(1_000_000, n(0), one(), 7, 9);
    let r = accumulate_tokens_owed(&p, U256 { hi: 2, lo: 0 }, U256 { hi: 4, lo: 0 });
    assert_eq!(r, (n(2_000_007), n(3_000_009)));
}

#[test]
fn unchanged_growth_returns_the_recorded_amounts() {
    let last0 = U256 { hi: 123, lo: 456 };
    let last1 = U256 { hi: u128::MAX, lo: u128::MAX };
    for liquidity in [0u128, 1, 1_000_000, u128::MAX] {
        let p = position(liquidity, last0, last1, 42, u128::MAX);
        assert_eq!(accumulate_tokens_owed(&p, last0, last1), (n(42), n(u128::MAX)));
        assert_eq!(get_tokens_owed(last0, last1, liquidity, last0, last1), (n(0), n(0)));
    }
}

#[test]
fn zero_liquidity_earns_nothing() {
    let all = U256 { hi: u128::MAX, lo: u128::MAX };
    assert_eq!(get_tokens_owed(n(0), n(0), 0, all, one()), (n(0), n(0)));
}

#[test]
fn more_liquidity_never_earns_less() {
    let inside = U256 { hi: 3, lo: 1 << 100 };
    let last = U256 { hi: 1, lo: 77 };
    let liquidities = [0u128, 1, 2, 3, 1_000, 1_000_000, 1 << 64, 1 << 127, u128::MAX - 1, u128::MAX];
    let mut previous = U256::zero();
    for liquidity in liquidities {
        let earned = get_tokens_owed(last, last, liquidity, inside, inside).0;
        assert!((earned.hi, earned.lo) >= (previous.hi, previous.lo));
        let total = accumulate_tokens_owed(&position(liquidity, last, last, 5, 5), inside, inside).0;
        assert_eq!(total, earned.wrapping_add(n(5)));
        previous = earned;
    }
}

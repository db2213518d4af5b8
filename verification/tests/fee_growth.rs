use v3_position::fee_growth::{fee_growth_inside_for, get_fee_growth_inside};
use v3_position::snapshot::{BoundaryTickState, PoolSnapshot};
use v3_position::tick::{TickPosition, TickRange};
use v3_position::uint256::U256;

fn n(x: u128) -> U256 {
    U256::from_u128(x)
}

fn pool(current_tick: i32, g0: U256, g1: U256) -> PoolSnapshot {
    PoolSnapshot { current_tick, fee_growth_global_0: g0, fee_growth_global_1: g1 }
}

fn boundary(o0: U256, o1: U256) -> BoundaryTickState {
    BoundaryTickState { fee_growth_outside_0: o0, fee_growth_outside_1: o1 }
}

#[test]
fn tick_range_rejects_unordered_ticks() {
    assert_eq!(TickRange::new(100, 100), None);
    assert_eq!(TickRange::new(100, -100), None);
    assert_eq!(TickRange::new(0, 0), None);
    assert_eq!(TickRange::new(i32::MAX, i32::MIN), None);
}

#[test]
fn tick_range_keeps_ordered_ticks() {
    let range = TickRange::new(-100, 100).unwrap();
    assert_eq!(range.lower(), -100);
    assert_eq!(range.upper(), 100);
    let widest = TickRange::new(i32::MIN, i32::MAX).unwrap();
    assert_eq!(widest.lower(), i32::MIN);
    assert_eq!(widest.upper(), i32::MAX);
    assert!(TickRange::new(5, 6).is_some());
}

#[test]
fn locate_names_exactly_one_case() {
    let range = TickRange::new(-100, 100).unwrap();
    for tick in [i32::MIN, -1000, -101, -100, -99, 0, 99, 100, 101, 1000, i32::MAX] {
        let below = tick < -100;
        let above = tick >= 100;
        let within = -100 <= tick && tick < 100;
        assert_eq!(below as u8 + above as u8 + within as u8, 1);
        let expected = if below {
            TickPosition::Below
        } else if above {
            TickPosition::Above
        } else {
            TickPosition::Within
        };
        assert_eq!(range.locate(tick), expected);
    }
}

#[test]
fn locate_at_the_boundaries() {
    let range = TickRange::new(-100, 100).unwrap();
    assert_eq!(range.locate(-101), TickPosition::Below);
    assert_eq!(range.locate(-100), TickPosition::Within);
    assert_eq!(range.locate(99), TickPosition::Within);
    assert_eq!(range.locate(100), TickPosition::Above);
}

#[test]
fn inside_range_subtracts_both_outside_values_from_global() {
    let range = TickRange::new(-100, 100).unwrap();
    let r = get_fee_growth_inside(
        &range,
        &pool(0, n(1000), n(5000)),
        &boundary(n(300), n(1)),
        &boundary(n(200), n(2)),
    );
    assert_eq!(r, (n(500), n(4997)));
}

#[test]
fn inside_range_wraps_when_the_difference_is_negative() {
    let range = TickRange::new(-100, 100).unwrap();
    let r = get_fee_growth_inside(
        &range,
        &pool(0, n(5), n(5)),
        &boundary(n(10), n(10)),
        &boundary(n(0), n(7)),
    );
    // 5 - 10 - 0 = -5 and 5 - 10 - 7 = -12, modulo 2^256.
    assert_eq!(r.0, U256 { hi: u128::MAX, lo: u128::MAX - 4 });
    assert_eq!(r.1, U256 { hi: u128::MAX, lo: u128::MAX - 11 });
}

#[test]
fn below_range_is_lower_minus_upper() {
    let range = TickRange::new(-100, 100).unwrap();
    let r = get_fee_growth_inside(
        &range,
        &pool(-101, n(999), n(999)),
        &boundary(n(50), n(20)),
        &boundary(n(20), n(50)),
    );
    assert_eq!(r.0, n(30));
    assert_eq!(r.1, U256 { hi: u128::MAX, lo: u128::MAX - 29 });
}

#[test]
fn above_range_is_upper_minus_lower() {
    let range = TickRange::new(-100, 100).unwrap();
    let r = get_fee_growth_inside(
        &range,
        &pool(100, n(999), n(999)),
        &boundary(n(50), n(20)),
        &boundary(n(20), n(50)),
    );
    assert_eq!(r.0, U256 { hi: u128::MAX, lo: u128::MAX - 29 });
    assert_eq!(r.1, n(30));
}

#[test]
fn per_token_function_follows_the_position() {
    let g = U256 { hi: 7, lo: 1 };
    let l = U256 { hi: 2, lo: 5 };
    let u = U256 { hi: 1, lo: 9 };
    assert_eq!(fee_growth_inside_for(TickPosition::Below, g, l, u), U256 { hi: 0, lo: u128::MAX - 3 });
    assert_eq!(fee_growth_inside_for(TickPosition::Above, g, l, u), U256 { hi: u128::MAX, lo: 4 });
    assert_eq!(fee_growth_inside_for(TickPosition::Within, g, l, u), U256 { hi: 3, lo: u128::MAX - 12 });
}

#[test]
fn common_shift_leaves_the_result_unchanged_outside_the_range() {
    let g = U256 { hi: 77, lo: 12 };
    let l = U256 { hi: 3, lo: u128::MAX };
    let u = U256 { hi: 900, lo: 1 };
    let shifts = [
        U256::zero(),
        n(1),
        U256 { hi: u128::MAX, lo: u128::MAX },
        U256 { hi: u128::MAX - 2, lo: 17 },
        U256 { hi: 1 << 127, lo: 0 },
    ];
    for position in [TickPosition::Below, TickPosition::Above] {
        let base = fee_growth_inside_for(position, g, l, u);
        for s in shifts {
            let shifted = fee_growth_inside_for(
                position,
                g.wrapping_add(s),
                l.wrapping_add(s),
                u.wrapping_add(s),
            );
            assert_eq!(shifted, base);
        }
    }
}

#[test]
fn common_shift_lowers_the_result_by_the_shift_inside_the_range() {
    let g = U256 { hi: 77, lo: 12 };
    let l = U256 { hi: 3, lo: u128::MAX };
    let u = U256 { hi: 900, lo: 1 };
    let base = fee_growth_inside_for(TickPosition::Within, g, l, u);
    for s in [U256::zero(), n(1), U256 { hi: u128::MAX, lo: u128::MAX }, U256 { hi: 5, lo: 6 }] {
        let shifted = fee_growth_inside_for(
            TickPosition::Within,
            g.wrapping_add(s),
            l.wrapping_add(s),
            u.wrapping_add(s),
        );
        assert_eq!(shifted, base.wrapping_sub(s));
    }
    assert_ne!(
        fee_growth_inside_for(
            TickPosition::Within,
            g.wrapping_add(n(1)),
            l.wrapping_add(n(1)),
            u.wrapping_add(n(1)),
        ),
        base
    );
}

#[test]
fn accrual_inside_the_range_moves_the_result_with_the_global_counter() {
    let g = U256 { hi: u128::MAX, lo: u128::MAX - 3 };
    let l = n(40);
    let u = n(2);
    let base = fee_growth_inside_for(TickPosition::Within, g, l, u);
    let accrued = n(1000);
    let later = fee_growth_inside_for(TickPosition::Within, g.wrapping_add(accrued), l, u);
    // The global counter wrapped past zero; the difference is still 1000.
    assert_eq!(g.wrapping_add(accrued), n(996));
    assert_eq!(later.wrapping_sub(base), accrued);
}

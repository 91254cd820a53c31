//! The fee model: forward application, reverse sizing, and their round trip.

use stakedex_core::fees::{FeeEnum, LiquidityLinearParams, PoolBalance, Rational};

fn flat(num: u64, denom: u64) -> FeeEnum {
    FeeEnum::Flat { ratio: Rational { num, denom } }
}

fn ll(mn: u64, md: u64, zn: u64, zd: u64) -> FeeEnum {
    FeeEnum::LiquidityLinear {
        params: LiquidityLinearParams {
            max_liq_remaining: Rational { num: mn, denom: md },
            zero_liq_remaining: Rational { num: zn, denom: zd },
        },
    }
}

fn bal(incoming: u64, reserves: u64) -> PoolBalance {
    PoolBalance { pool_incoming_stake: incoming, sol_reserves_lamports: reserves }
}

#[test]
fn flat_fee_exact_value() {
    // 0.3% of 10_000_000 is exactly 30_000
    let fee = flat(3, 1000);
    assert_eq!(fee.apply(bal(1_000, 5_000_000_000), 10_000_000), Some(30_000));
}

#[test]
fn flat_fee_rounds_up() {
    let fee = flat(1, 3);
    assert_eq!(fee.apply(bal(0, 0), 10), Some(4));
}

#[test]
fn flat_fee_denominator_zero_is_undefined() {
    let fee = flat(1, 0);
    assert_eq!(fee.apply(bal(0, 0), 100), None);
}

#[test]
fn fee_never_exceeds_gross() {
    let fee = flat(5, 1); // 500%
    assert_eq!(fee.apply(bal(0, 0), 123), Some(123));
    let fee2 = ll(2, 1, 3, 1); // both endpoints above 100%
    let f = fee2.apply(bal(10, 10), 50).unwrap();
    assert!(f <= 50);
}

#[test]
fn ll_downward_curve_is_undefined() {
    // worst-case rate below best-case rate
    let fee = ll(3, 100, 1, 1000);
    assert_eq!(fee.apply(bal(10, 1_000_000), 100), None);
}

#[test]
fn ll_zero_owned_is_undefined() {
    let fee = ll(1, 1000, 3, 100);
    assert_eq!(fee.apply(bal(0, 0), 100), None);
}

#[test]
fn flat_round_trip_exact() {
    // wherever the flat inversion succeeds, applying the fee nets the target
    let targets = [0u64, 1, 999, 4_565_760, 1_000_000_007];
    let ratios = [(3u64, 1000u64), (1, 100), (999, 1000), (0, 7), (1, 2)];
    for &(n, d) in ratios.iter() {
        for &net in targets.iter() {
            let fee = flat(n, d);
            let b = bal(17, 12345);
            let g = fee.pseudo_reverse(b, net).unwrap();
            let f = fee.apply(b, g).unwrap();
            assert_eq!(g - f, net, "ratio {n}/{d} net {net}");
        }
    }
}

#[test]
fn ll_round_trip_exact() {
    let fee = ll(1, 1000, 3, 100);
    let b = bal(1_000, 5_000_000_000);
    let net = 4_565_760;
    let g = fee.pseudo_reverse(b, net).unwrap();
    let f = fee.apply(b, g).unwrap();
    assert_eq!(g - f, net);
    assert!(g >= net);
}

#[test]
fn pseudo_reverse_full_fee_is_none() {
    // a rate of 100% or more can never net anything
    assert_eq!(flat(1, 1).pseudo_reverse(bal(0, 10), 5), None);
    assert_eq!(flat(7, 3).pseudo_reverse(bal(0, 10), 5), None);
}

#[test]
fn flat_reverse_ignores_incoming_stake() {
    // monotonicity in incoming stake, flat curve: the result is independent
    let fee = flat(3, 1000);
    let g_low = fee.pseudo_reverse(bal(0, 5_000_000_000), 4_565_760).unwrap();
    let g_high = fee.pseudo_reverse(bal(u64::MAX, 5_000_000_000), 4_565_760).unwrap();
    assert_eq!(g_low, g_high);
}

#[test]
fn pseudo_reverse_is_deterministic() {
    // two calls on equal schedule, balance and target agree, both curves
    let cases = [flat(3, 1000), ll(1, 1000, 3, 100)];
    for fee in cases.iter() {
        let b = bal(1_000, 5_000_000_000);
        assert_eq!(fee.pseudo_reverse(b, 4_565_760), fee.pseudo_reverse(b, 4_565_760));
    }
}

#[test]
fn ll_fee_nondecreasing_in_incoming_stake() {
    let fee = ll(1, 1000, 3, 100);
    let gross = 10_000_000;
    let reserves = 5_000_000_000;
    let mut last = 0u64;
    for &incoming in [0u64, 1_000_000, 1_000_000_000, 4_999_999_999].iter() {
        let f = fee.apply(bal(incoming, reserves), gross).unwrap();
        assert!(f >= last, "incoming {incoming}: {f} < {last}");
        last = f;
    }
}

#[test]
fn ll_reverse_nondecreasing_in_incoming_stake() {
    // higher utilization, equal or higher fee, equal or higher required gross
    let fee = ll(1, 1000, 3, 100);
    let net = 4_565_760;
    let reserves = 5_000_000_000;
    let mut last = 0u64;
    for &incoming in [0u64, 1_000_000, 1_000_000_000, 4_000_000_000].iter() {
        let g = fee.pseudo_reverse(bal(incoming, reserves), net).unwrap();
        assert!(g >= last, "incoming {incoming}: {g} < {last}");
        last = g;
    }
}

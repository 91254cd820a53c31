//! The forward/reverse fee model over a pool-balance snapshot.
//!
//! A fee schedule is either flat (a constant rational rate) or
//! liquidity-linear (the rate interpolates between a best-case and a
//! worst-case rational as the pool's liquidity is consumed). The forward
//! direction [`FeeEnum::apply`] is deterministic and saturating: the fee is
//! never negative and never exceeds the gross amount. The reverse direction
//! [`FeeEnum::pseudo_reverse`] sizes a gross amount whose net-of-fee value
//! equals a requested target exactly; for the flat curve it is a proved
//! closed form, for the liquidity-linear curve it is a bounded search that
//! only answers after validating the defining equation, so every success of
//! either curve satisfies `gross - apply(gross) == target` with zero
//! tolerance.
//!
//! The liquidity-linear rate is quantized to a fixed-point scale of
//! [`FEE_FP`] parts (a relative quantization error of at most `1 / FEE_FP`,
//! i.e. one part per trillion), which is the documented error bound of this
//! curve's arithmetic; within that quantized model all computation is exact.

use vstd::prelude::*;
use vstd::arithmetic::mul::lemma_mul_upper_bound;
use vstd::arithmetic::div_mod::{lemma_fundamental_div_mod, lemma_div_is_ordered, lemma_div_multiples_vanish, lemma_div_pos_is_pos};

verus! {

/// Fixed-point scale for the liquidity-linear fee rate.
pub const FEE_FP: u64 = 1_000_000_000_000;

/// A fee rate expressed as `num / denom`.
#[derive(Clone, Copy, PartialEq, Eq, Structural, Debug)]
pub struct Rational {
    pub num: u64,
    pub denom: u64,
}

/// The two endpoints of the liquidity-linear fee curve: the rate charged
/// while the pool is fully liquid, and the rate approached as its liquidity
/// is exhausted.
#[derive(Clone, Copy, PartialEq, Eq, Structural, Debug)]
pub struct LiquidityLinearParams {
    pub max_liq_remaining: Rational,
    pub zero_liq_remaining: Rational,
}

/// A pluggable fee schedule.
#[derive(Clone, Copy, PartialEq, Eq, Structural, Debug)]
pub enum FeeEnum {
    Flat { ratio: Rational },
    LiquidityLinear { params: LiquidityLinearParams },
}

/// The minimal sufficient statistic of a pool for fee computation.
#[derive(Clone, Copy, PartialEq, Eq, Structural, Debug)]
pub struct PoolBalance {
    /// Stake currently queued for unstaking.
    pub pool_incoming_stake: u64,
    /// Liquid reserves available for instant unstaking.
    pub sol_reserves_lamports: u64,
}

/// Ceiling division for non-negative `a` and positive `b`.
pub open spec fn ceil_div(a: int, b: int) -> int {
    (a + b - 1) / b
}

/// The rate `r` quantized to [`FEE_FP`] parts and clamped to at most 100%.
pub open spec fn spec_ratio_fp(r: Rational) -> int {
    let q = (r.num * FEE_FP) / (r.denom as int);
    if q > FEE_FP { FEE_FP as int } else { q }
}

/// The flat fee on `gross`: `ceil(gross * num / denom)`, saturating at
/// `gross`; undefined (`None`) when the rate's denominator is zero.
pub open spec fn spec_flat_fee(ratio: Rational, gross: u64) -> Option<u64> {
    if ratio.denom == 0 {
        None
    } else {
        let f = ceil_div(gross * ratio.num, ratio.denom as int);
        let fc = if f > gross { gross as int } else { f };
        Some(fc as u64)
    }
}

/// The liquidity-linear rate, in [`FEE_FP`] parts, charged on `gross` given
/// the balance `bal`: the two endpoint rates are interpolated by the share of
/// the pool's owned lamports that would be queued for unstaking after the
/// trade. `None` when an endpoint denominator or the pool's owned lamports
/// are zero, or when the curve slopes downward (worst-case rate below the
/// best-case rate).
pub open spec fn spec_ll_rate_fp(p: LiquidityLinearParams, bal: PoolBalance, gross: u64) -> Option<int> {
    if p.max_liq_remaining.denom == 0 || p.zero_liq_remaining.denom == 0 {
        None
    } else {
        let owned = bal.pool_incoming_stake + bal.sol_reserves_lamports;
        if owned == 0 {
            None
        } else {
            let m = spec_ratio_fp(p.max_liq_remaining);
            let z = spec_ratio_fp(p.zero_liq_remaining);
            if z < m {
                None
            } else {
                let x = bal.pool_incoming_stake + gross;
                let xc = if x > owned { owned } else { x };
                Some(m + ((z - m) * xc) / owned)
            }
        }
    }
}

/// The liquidity-linear fee on `gross`: the quantized interpolated rate
/// applied with ceiling rounding, saturating at `gross`.
pub open spec fn spec_ll_fee(p: LiquidityLinearParams, bal: PoolBalance, gross: u64) -> Option<u64> {
    match spec_ll_rate_fp(p, bal, gross) {
        None => None,
        Some(rate) => {
            let f = ceil_div(gross * rate, FEE_FP as int);
            let fc = if f > gross { gross as int } else { f };
            Some(fc as u64)
        },
    }
}

/// The forward fee of a schedule on `gross` under balance `bal`.
pub open spec fn spec_apply_fee(fee: FeeEnum, bal: PoolBalance, gross: u64) -> Option<u64> {
    match fee {
        FeeEnum::Flat { ratio } => spec_flat_fee(ratio, gross),
        FeeEnum::LiquidityLinear { params } => spec_ll_fee(params, bal, gross),
    }
}

/// The closed-form inversion of the flat curve: the least gross amount whose
/// net-of-fee value equals `net`. `None` when the rate is undefined, eats
/// 100% or more, or the result does not fit in 64 bits.
pub open spec fn spec_flat_reverse(ratio: Rational, net: u64) -> Option<u64> {
    if ratio.denom == 0 || ratio.num >= ratio.denom {
        None
    } else {
        let g = ceil_div(net * ratio.denom, ratio.denom - ratio.num as int);
        if g > u64::MAX {
            None
        } else {
            Some(g as u64)
        }
    }
}

/// One more round of the liquidity-linear sizing search, starting from the
/// candidate `g` with `fuel` rounds left: answer `g` when its net-of-fee
/// value hits `net` exactly, otherwise step the candidate by the remaining
/// error (up toward a larger gross when the payout falls short, down onto
/// `fee + net` when it overshoots) and recurse; `None` when the fee is
/// undefined, the candidate leaves 64 bits, or the fuel runs out.
pub open spec fn spec_ll_search(fee: FeeEnum, bal: PoolBalance, net: u64, g: u64, fuel: nat) -> Option<u64>
    decreases fuel,
{
    if fuel == 0 {
        None
    } else {
        match spec_apply_fee(fee, bal, g) {
            None => None,
            Some(f) => {
                if g - f == net {
                    Some(g)
                } else if g - f < net {
                    let step = net - (g - f);
                    if g + step > u64::MAX {
                        None
                    } else {
                        spec_ll_search(fee, bal, net, (g + step) as u64, (fuel - 1) as nat)
                    }
                } else {
                    spec_ll_search(fee, bal, net, (f + net) as u64, (fuel - 1) as nat)
                }
            },
        }
    }
}

/// Rounds of the bounded sizing search.
pub const LL_SEARCH_ROUNDS: u64 = 32;

/// What the reverse sizing returns: the flat closed form, or the bounded
/// search started at `net` itself. A total function of the schedule, the
/// balance and the target, so two calls on equal inputs agree.
pub open spec fn spec_pseudo_reverse(fee: FeeEnum, bal: PoolBalance, net: u64) -> Option<u64> {
    match fee {
        FeeEnum::Flat { ratio } => spec_flat_reverse(ratio, net),
        FeeEnum::LiquidityLinear { .. } => spec_ll_search(fee, bal, net, net, LL_SEARCH_ROUNDS as nat),
    }
}

/// Exactness of the flat closed form: at `g == ceil(net * d / (d - n))` the
/// flat fee is between 0 and `g` and nets exactly `net`.
proof fn lemma_flat_reverse_exact(net: u64, n: u64, d: u64, g: int)
    requires
        0 < d,
        n < d,
        g == ceil_div(net * d, d - n as int),
    ensures
        0 <= ceil_div(g * n, d as int) <= g,
        g - ceil_div(g * n, d as int) == net,
{
    let b = d - n;
    let a = net * d;
    lemma_fundamental_div_mod(a + b - 1, b as int);
    assert(b * g >= a && b * g <= a + b - 1);
    assert(d * g - n * g == b * g) by (nonlinear_arith)
        requires b == d - n;
    let c = ceil_div(g * n, d as int);
    lemma_fundamental_div_mod(g * n + d - 1, d as int);
    assert(d * c >= g * n && d * c <= g * n + d - 1);
    // upper half: g * n <= d * (g - net), hence c <= g - net
    assert(g * n <= d * g - net * d);
    assert(d * c <= d * (g - net) + d - 1) by (nonlinear_arith)
        requires d * c <= g * n + d - 1, g * n <= d * g - net * d;
    assert(c <= g - net) by (nonlinear_arith)
        requires d * c <= d * (g - net) + d - 1, d >= 1;
    // lower half: g * n >= d * (g - net - 1) + 1, hence c >= g - net
    assert(g * n >= d * g - net * d - b + 1);
    assert(d * c >= d * (g - net - 1) + 1) by (nonlinear_arith)
        requires d * c >= g * n, g * n >= d * g - net * d - b + 1, b <= d;
    assert(c >= g - net) by (nonlinear_arith)
        requires d * c >= d * (g - net - 1) + 1, d >= 1;
    assert(c >= 0) by (nonlinear_arith)
        requires d * c >= g * n, g * n >= 0, d >= 1;
}

impl FeeEnum {
    /// The forward fee on `gross` under balance `bal`: deterministic,
    /// never negative, never above `gross`; `None` exactly when the
    /// schedule's arithmetic is undefined for this balance.
    pub fn apply(&self, bal: PoolBalance, gross: u64) -> (r: Option<u64>)
        ensures
            r == spec_apply_fee(*self, bal, gross),
            r matches Some(f) ==> f <= gross,
    {
        match self {
            FeeEnum::Flat { ratio } => {
                if ratio.denom == 0 {
                    None
                } else {
                    proof {
                        lemma_mul_upper_bound(gross as int, u64::MAX as int, ratio.num as int, u64::MAX as int);
                    }
                    let prod: u128 = (gross as u128) * (ratio.num as u128);
                    let den: u128 = ratio.denom as u128;
                    let f: u128 = (prod + (den - 1)) / den;
                    if f > gross as u128 {
                        Some(gross)
                    } else {
                        Some(f as u64)
                    }
                }
            },
            FeeEnum::LiquidityLinear { params } => {
                if params.max_liq_remaining.denom == 0 || params.zero_liq_remaining.denom == 0 {
                    return None;
                }
                let owned: u128 = (bal.pool_incoming_stake as u128) + (bal.sol_reserves_lamports as u128);
                if owned == 0 {
                    return None;
                }
                let m = ratio_fp(&params.max_liq_remaining);
                let z = ratio_fp(&params.zero_liq_remaining);
                if z < m {
                    return None;
                }
                let x: u128 = (bal.pool_incoming_stake as u128) + (gross as u128);
                let xc: u128 = if x > owned { owned } else { x };
                let diff: u128 = (z - m) as u128;
                proof {
                    lemma_mul_upper_bound(diff as int, FEE_FP as int, xc as int, owned as int);
                    lemma_mul_upper_bound(FEE_FP as int, FEE_FP as int, owned as int, 0x2_0000_0000_0000_0000);
                    assert(diff * xc <= diff * owned) by (nonlinear_arith)
                        requires xc <= owned, diff >= 0;
                    lemma_div_is_ordered((diff * xc) as int, (diff * owned) as int, owned as int);
                    lemma_div_multiples_vanish(diff as int, owned as int);
                    assert(diff * owned == owned * diff) by (nonlinear_arith);
                }
                let rate: u128 = (m as u128) + diff * xc / owned;
                proof {
                    lemma_mul_upper_bound(gross as int, u64::MAX as int, rate as int, FEE_FP as int);
                }
                let f: u128 = ((gross as u128) * rate + (FEE_FP as u128 - 1)) / (FEE_FP as u128);
                if f > gross as u128 {
                    Some(gross)
                } else {
                    Some(f as u64)
                }
            },
        }
    }

    /// Sizes the gross amount whose net-of-fee value is exactly `net`.
    ///
    /// The result is the total function [`spec_pseudo_reverse`] of the
    /// schedule, balance and target, and every success satisfies the
    /// defining equation with zero tolerance: the forward fee of the answer
    /// is defined and nets `net` on the nose. For the flat curve the answer
    /// is the proved closed form; for the liquidity-linear curve it is the
    /// bounded damped search [`spec_ll_search`], which checks the equation
    /// before answering and gives `None` on non-convergence.
    pub fn pseudo_reverse(&self, bal: PoolBalance, net: u64) -> (r: Option<u64>)
        ensures
            r == spec_pseudo_reverse(*self, bal, net),
            r matches Some(g) ==> ({
                &&& spec_apply_fee(*self, bal, g) matches Some(f) && g - f == net
                &&& net <= g
            }),
    {
        match self {
            FeeEnum::Flat { ratio } => {
                if ratio.denom == 0 || ratio.num >= ratio.denom {
                    return None;
                }
                proof {
                    lemma_mul_upper_bound(net as int, u64::MAX as int, ratio.denom as int, u64::MAX as int);
                }
                let a: u128 = (net as u128) * (ratio.denom as u128);
                let b: u128 = (ratio.denom - ratio.num) as u128;
                let g: u128 = (a + (b - 1)) / b;
                if g > u64::MAX as u128 {
                    None
                } else {
                    proof {
                        lemma_flat_reverse_exact(net, ratio.num, ratio.denom, g as int);
                    }
                    Some(g as u64)
                }
            },
            FeeEnum::LiquidityLinear { .. } => {
                let mut g: u64 = net;
                let mut k: u64 = 0;
                while k < LL_SEARCH_ROUNDS
                    invariant
                        k <= LL_SEARCH_ROUNDS,
                        self matches FeeEnum::LiquidityLinear { .. },
                        spec_ll_search(*self, bal, net, g, (LL_SEARCH_ROUNDS - k) as nat)
                            == spec_pseudo_reverse(*self, bal, net),
                    decreases LL_SEARCH_ROUNDS - k,
                {
                    let ghost fuel = (LL_SEARCH_ROUNDS - k) as nat;
                    match self.apply(bal, g) {
                        None => {
                            proof {
                                assert(spec_ll_search(*self, bal, net, g, fuel) is None);
                            }
                            return None;
                        },
                        Some(f) => {
                            let t = g - f;
                            if t == net {
                                proof {
                                    assert(spec_ll_search(*self, bal, net, g, fuel) == Some(g));
                                }
                                return Some(g);
                            }
                            if t < net {
                                let step = net - t;
                                if g > u64::MAX - step {
                                    proof {
                                        assert(spec_ll_search(*self, bal, net, g, fuel) is None);
                                    }
                                    return None;
                                }
                                proof {
                                    assert(spec_ll_search(*self, bal, net, g, fuel)
                                        == spec_ll_search(*self, bal, net, (g + step) as u64, (fuel - 1) as nat));
                                }
                                g = g + step;
                            } else {
                                proof {
                                    assert(f + net < g);
                                    assert(spec_ll_search(*self, bal, net, g, fuel)
                                        == spec_ll_search(*self, bal, net, (f + net) as u64, (fuel - 1) as nat));
                                }
                                g = g - (t - net);
                            }
                        },
                    }
                    k = k + 1;
                }
                proof {
                    assert(spec_ll_search(*self, bal, net, g, 0) is None);
                }
                None
            },
        }
    }
}

/// Round trip, flat curve: whenever the closed-form inversion succeeds,
/// applying the forward fee to its answer nets exactly the requested
/// amount, for every pool balance.
pub proof fn lemma_flat_round_trip(ratio: Rational, bal: PoolBalance, net: u64)
    ensures
        spec_flat_reverse(ratio, net) matches Some(g) ==> ({
            &&& spec_apply_fee(FeeEnum::Flat { ratio }, bal, g) matches Some(f) && g - f == net
            &&& net <= g
        }),
{
    match spec_flat_reverse(ratio, net) {
        Some(g) => {
            lemma_flat_reverse_exact(net, ratio.num, ratio.denom, g as int);
        },
        None => {},
    }
}

/// Round trip, liquidity-linear search: whenever the search answers, the
/// forward fee of the answer is defined and nets the target exactly — the
/// search only stops on an exact hit.
proof fn lemma_ll_search_round_trip(fee: FeeEnum, bal: PoolBalance, net: u64, g: u64, fuel: nat)
    ensures
        spec_ll_search(fee, bal, net, g, fuel) matches Some(res) ==> ({
            &&& spec_apply_fee(fee, bal, res) matches Some(f) && res - f == net
            &&& net <= res
        }),
    decreases fuel,
{
    if fuel > 0 {
        match spec_apply_fee(fee, bal, g) {
            None => {},
            Some(f) => {
                if g - f == net {
                } else if g - f < net {
                    let step = net - (g - f);
                    if g + step <= u64::MAX {
                        lemma_ll_search_round_trip(fee, bal, net, (g + step) as u64, (fuel - 1) as nat);
                    }
                } else {
                    lemma_ll_search_round_trip(fee, bal, net, (f + net) as u64, (fuel - 1) as nat);
                }
            },
        }
    }
}

/// Round trip: whenever the reverse sizing succeeds — on either curve —
/// applying the forward fee to its answer nets exactly the requested
/// amount, with zero tolerance.
pub proof fn lemma_pseudo_reverse_round_trip(fee: FeeEnum, bal: PoolBalance, net: u64)
    ensures
        spec_pseudo_reverse(fee, bal, net) matches Some(g) ==> ({
            &&& spec_apply_fee(fee, bal, g) matches Some(f) && g - f == net
            &&& net <= g
        }),
{
    match fee {
        FeeEnum::Flat { ratio } => {
            lemma_flat_round_trip(ratio, bal, net);
        },
        FeeEnum::LiquidityLinear { .. } => {
            lemma_ll_search_round_trip(fee, bal, net, net, LL_SEARCH_ROUNDS as nat);
        },
    }
}

/// Quotient monotonicity: if `a1 / b1 <= a2 / b2` as rationals, the same
/// holds of the rounded-down integer quotients.
proof fn lemma_int_div_le(a1: int, b1: int, a2: int, b2: int)
    requires
        0 <= a1,
        0 <= a2,
        0 < b1,
        0 < b2,
        a1 * b2 <= a2 * b1,
    ensures
        a1 / b1 <= a2 / b2,
{
    let q1 = a1 / b1;
    lemma_div_pos_is_pos(a1, b1);
    lemma_fundamental_div_mod(a1, b1);
    assert(b1 * q1 <= a1);
    assert(b2 * q1 <= a2) by (nonlinear_arith)
        requires b1 * q1 <= a1, a1 * b2 <= a2 * b1, 0 < b1, 0 < b2, 0 <= q1;
    lemma_div_is_ordered(b2 * q1, a2, b2);
    lemma_div_multiples_vanish(q1, b2);
}

/// Monotonicity in the pool's incoming stake, liquidity-linear curve,
/// forward direction: while the payout is covered by the reserves, a larger
/// queued incoming stake (higher utilization) gives an equal or higher fee,
/// and the fee stays defined. Together with
/// [`lemma_slumdog_flat_monotone_in_incoming_stake`](crate::prefund::lemma_slumdog_flat_monotone_in_incoming_stake)
/// this is the monotone half of the fee model's behaviour in utilization;
/// the reverse sizing of this curve is pinned only by its round-trip
/// equation, which has several solutions, so no monotonicity is claimed of
/// it.
pub proof fn lemma_ll_fee_monotone_in_incoming_stake(p: LiquidityLinearParams, b1: PoolBalance, b2: PoolBalance, gross: u64)
    requires
        b1.sol_reserves_lamports == b2.sol_reserves_lamports,
        b1.pool_incoming_stake <= b2.pool_incoming_stake,
        gross <= b1.sol_reserves_lamports,
        b1.pool_incoming_stake + b1.sol_reserves_lamports > 0,
    ensures
        (match (spec_ll_fee(p, b1, gross), spec_ll_fee(p, b2, gross)) {
            (Some(f1), Some(f2)) => f1 <= f2,
            (None, None) => true,
            _ => false,
        }),
{
    if p.max_liq_remaining.denom == 0 || p.zero_liq_remaining.denom == 0 {
        return;
    }
    let m = spec_ratio_fp(p.max_liq_remaining);
    let z = spec_ratio_fp(p.zero_liq_remaining);
    if z < m {
        return;
    }
    let i1 = b1.pool_incoming_stake as int;
    let i2 = b2.pool_incoming_stake as int;
    let r = b1.sol_reserves_lamports as int;
    let g = gross as int;
    let diff = z - m;
    // with the payout covered by the reserves, neither share is clamped
    assert((i1 + g) * (i2 + r) <= (i2 + g) * (i1 + r)) by (nonlinear_arith)
        requires i1 <= i2, g <= r;
    assert(diff * (i1 + g) * (i2 + r) <= diff * (i2 + g) * (i1 + r)) by (nonlinear_arith)
        requires (i1 + g) * (i2 + r) <= (i2 + g) * (i1 + r), diff >= 0;
    assert(diff * (i1 + g) * (i2 + r) == (diff * (i1 + g)) * (i2 + r)) by (nonlinear_arith);
    assert(diff * (i2 + g) * (i1 + r) == (diff * (i2 + g)) * (i1 + r)) by (nonlinear_arith);
    assert(diff * (i1 + g) >= 0) by (nonlinear_arith)
        requires diff >= 0, i1 >= 0, g >= 0;
    assert(diff * (i2 + g) >= 0) by (nonlinear_arith)
        requires diff >= 0, i2 >= 0, g >= 0;
    lemma_int_div_le(diff * (i1 + g), i1 + r, diff * (i2 + g), i2 + r);
    let rate1 = m + (diff * (i1 + g)) / (i1 + r);
    let rate2 = m + (diff * (i2 + g)) / (i2 + r);
    assert(rate1 <= rate2);
    assert(gross * rate1 <= gross * rate2) by (nonlinear_arith)
        requires rate1 <= rate2, gross >= 0;
    lemma_div_is_ordered(gross * rate1 + FEE_FP - 1, gross * rate2 + FEE_FP - 1, FEE_FP as int);
    assert(ceil_div(gross * rate1, FEE_FP as int) <= ceil_div(gross * rate2, FEE_FP as int));
    assert(ceil_div(gross * rate1, FEE_FP as int) >= 0) by (nonlinear_arith)
        requires gross * rate1 >= 0, FEE_FP == 1_000_000_000_000u64;
}

/// The quantized, clamped fee rate of `r` (at most [`FEE_FP`]).
fn ratio_fp(r: &Rational) -> (q: u64)
    requires
        r.denom != 0,
    ensures
        q == spec_ratio_fp(*r),
        q <= FEE_FP,
{
    proof {
        lemma_mul_upper_bound(r.num as int, u64::MAX as int, FEE_FP as int, FEE_FP as int);
    }
    let p: u128 = (r.num as u128) * (FEE_FP as u128);
    let q: u128 = p / (r.denom as u128);
    if q > FEE_FP as u128 {
        FEE_FP
    } else {
        q as u64
    }
}

} // verus!

//! Exact percentage arithmetic on signed amounts.
//!
//! The loss of a commitment and the payout of an early exit are quotients of
//! products that need not fit in 128 bits. The functions here compute them
//! without overflow for every input.

use vstd::prelude::*;
use vstd::arithmetic::div_mod::{
    lemma_fundamental_div_mod,
    lemma_fundamental_div_mod_converse,
    lemma_mod_bound,
};

verus! {

/// `x` where it fits in an `i128`, else the bound of `i128` nearest to it.
pub open spec fn saturate(x: int) -> i128 {
    if x > i128::MAX {
        i128::MAX
    } else if x < i128::MIN {
        i128::MIN
    } else {
        x as i128
    }
}

/// The loss of a position in percent of its principal, rounded down:
/// `(amount - value) * 100 / amount` for a positive `amount`, else zero.
/// A gain is a negative loss.
pub open spec fn loss_percent_of(amount: int, value: int) -> int {
    if amount > 0 {
        ((amount - value) * 100) / amount
    } else {
        0
    }
}

/// The part of `value` that an early exit withholds: `penalty_percent`
/// hundredths of it, rounded down.
pub open spec fn penalty_of(value: int, penalty_percent: int) -> int {
    (value * penalty_percent) / 100
}

/// What an early exit pays out: `value` less its penalty.
pub open spec fn exit_payout_of(value: int, penalty_percent: int) -> int {
    value - penalty_of(value, penalty_percent)
}

/// Saturation keeps the order against any threshold strictly inside the range
/// of `i128`.
pub proof fn lemma_saturate_keeps_order(x: int, threshold: int)
    requires
        i128::MIN < threshold < i128::MAX,
    ensures
        saturate(x) > threshold <==> x > threshold,
        saturate(x) < threshold <==> x < threshold,
{
}

proof fn lemma_quotient_bounds(x: int, d: int)
    requires
        d >= 1,
    ensures
        x == d * (x / d) + x % d,
        0 <= x % d < d,
        x >= 0 ==> 0 <= x / d <= x,
        x < 0 ==> x <= x / d < 0,
{
    lemma_fundamental_div_mod(x, d);
    lemma_mod_bound(x, d);
    let q = x / d;
    let r = x % d;
    assert(x >= 0 ==> 0 <= q <= x) by (nonlinear_arith)
        requires
            x == d * q + r,
            0 <= r < d,
            d >= 1,
    ;
    assert(x < 0 ==> x <= q < 0) by (nonlinear_arith)
        requires
            x == d * q + r,
            0 <= r < d,
            d >= 1,
    ;
}

/// The quotient and remainder of `100 * r` by `a`, for `r` below `a`.
fn hundredfold(r: u128, a: u128) -> (res: (u128, u128))
    requires
        r < a,
        a <= i128::MAX,
    ensures
        100 * r == res.0 * a + res.1,
        res.1 < a,
        res.0 < 100,
{
    let mut t: u128 = 0;
    let mut m: u128 = 0;
    match r.checked_mul(100) {
        // The product fits: divide it.
        Some(x) => {
            t = x / a;
            m = x % a;
            proof {
                lemma_fundamental_div_mod(x as int, a as int);
                assert(t * a == a * t) by (nonlinear_arith);
            }
        },
        None => {
            // The product does not fit: add `r` a hundred times and carry
            // whenever the sum reaches `a`.
            let mut i: u8 = 0;
            while i < 100
                invariant
                    i <= 100,
                    t <= i,
                    m < a,
                    r < a,
                    a <= i128::MAX,
                    i * r == t * a + m,
                decreases 100 - i,
            {
                let ghost t0 = t;
                let ghost m0 = m;
                let sum: u128 = m + r;
                if sum >= a {
                    m = sum - a;
                    t = t + 1;
                } else {
                    m = sum;
                }
                assert((i + 1) * r == t * a + m) by (nonlinear_arith)
                    requires
                        i * r == t0 * a + m0,
                        (t == t0 + 1 && m == m0 + r - a) || (t == t0 && m == m0 + r),
                ;
                i = i + 1;
            }
        },
    }
    assert(t < 100) by (nonlinear_arith)
        requires
            100 * r == t * a + m,
            r < a,
            0 <= m,
    ;
    (t, m)
}

proof fn lemma_loss_parts(a: int, v: int, q: int, r: int, t: int, m: int)
    requires
        a >= 1,
        v == a * q + r,
        0 <= r < a,
        100 * r == t * a + m,
        0 <= m < a,
    ensures
        loss_percent_of(a, v) == 100 - 100 * q - t - (if m > 0 { 1int } else { 0int }),
{
    let n = (a - v) * 100;
    if m == 0 {
        let k = 100 - 100 * q - t;
        assert(n == k * a + 0) by (nonlinear_arith)
            requires
                n == (a - v) * 100,
                v == a * q + r,
                100 * r == t * a + m,
                m == 0,
                k == 100 - 100 * q - t,
        ;
        lemma_fundamental_div_mod_converse(n, a, k, 0);
    } else {
        let k = 100 - 100 * q - t - 1;
        assert(n == k * a + (a - m)) by (nonlinear_arith)
            requires
                n == (a - v) * 100,
                v == a * q + r,
                100 * r == t * a + m,
                k == 100 - 100 * q - t - 1,
        ;
        lemma_fundamental_div_mod_converse(n, a, k, a - m);
    }
}

/// The loss of a position in percent of its principal, held to the range of
/// `i128`. No position with a principal of zero or less has a loss.
pub fn loss_percent(amount: i128, value: i128) -> (percent: i128)
    ensures
        percent == saturate(loss_percent_of(amount as int, value as int)),
{
    if amount <= 0 {
        return 0;
    }
    proof {
        lemma_quotient_bounds(value as int, amount as int);
    }
    let q: i128 = value.checked_div_euclid(amount).unwrap();
    let r: i128 = value.checked_rem_euclid(amount).unwrap();
    let (t, m) = hundredfold(r as u128, amount as u128);
    let c: i128 = if m > 0 {
        t as i128 + 1
    } else {
        t as i128
    };
    proof {
        lemma_loss_parts(amount as int, value as int, q as int, r as int, t as int, m as int);
    }
    if q <= 0 {
        // Two parts that are not negative: -100 * q and 100 - c.
        match q.checked_mul(-100) {
            None => i128::MAX,
            Some(base) => match base.checked_add(100 - c) {
                None => i128::MAX,
                Some(percent) => percent,
            },
        }
    } else {
        // Two parts that are not positive: -100 * (q - 1) and -c.
        match (q - 1).checked_mul(-100) {
            None => i128::MIN,
            Some(base) => match base.checked_sub(c) {
                None => i128::MIN,
                Some(percent) => percent,
            },
        }
    }
}

proof fn lemma_payout_parts(v: int, p: int, q: int, r: int)
    requires
        0 <= p,
        v == 100 * q + r,
        v >= 0 ==> q >= 0 && 0 <= r < 100,
        v < 0 ==> q <= 0 && -100 < r <= 0,
    ensures
        exit_payout_of(v, p) == q * (100 - p) + (r - (r * p) / 100),
        q * (100 - p) > 0 ==> r - (r * p) / 100 >= 0,
        q * (100 - p) < 0 ==> r - (r * p) / 100 <= 0,
        p <= 100 && v >= 0 ==> 0 <= q * (100 - p) <= v,
        p <= 100 && v < 0 ==> v <= q * (100 - p) <= 0,
{
    let qp = q * p;
    let rp = r * p;
    let cut = rp / 100;
    assert(v * p == 100 * qp + rp) by (nonlinear_arith)
        requires
            v == 100 * q + r,
            qp == q * p,
            rp == r * p,
    ;
    assert(v * p == (qp + cut) * 100 + rp % 100);
    lemma_fundamental_div_mod_converse(v * p, 100, qp + cut, rp % 100);
    assert(q * (100 - p) == 100 * q - qp) by (nonlinear_arith)
        requires
            qp == q * p,
    ;
    assert(r >= 0 && p <= 100 ==> rp <= 100 * r) by (nonlinear_arith)
        requires
            rp == r * p,
            0 <= p,
    ;
    assert(r >= 0 && p >= 100 ==> rp >= 100 * r) by (nonlinear_arith)
        requires
            rp == r * p,
    ;
    assert(r <= 0 && p <= 100 ==> rp >= 100 * r) by (nonlinear_arith)
        requires
            rp == r * p,
            0 <= p,
    ;
    assert(r <= 0 && p >= 100 ==> rp <= 100 * r) by (nonlinear_arith)
        requires
            rp == r * p,
    ;
    assert(q >= 0 && p <= 100 ==> 0 <= q * (100 - p) <= 100 * q) by (nonlinear_arith)
        requires
            0 <= p,
    ;
    assert(q <= 0 && p <= 100 ==> 100 * q <= q * (100 - p) <= 0) by (nonlinear_arith)
        requires
            0 <= p,
    ;
    assert(q > 0 && p >= 100 ==> q * (100 - p) <= 0) by (nonlinear_arith);
    assert(q < 0 && p >= 100 ==> q * (100 - p) >= 0) by (nonlinear_arith);
    assert(q == 0 ==> q * (100 - p) == 0) by (nonlinear_arith);
}

/// What an early exit pays out of a position worth `value` under a penalty of
/// `penalty_percent`, or `None` where that amount does not fit in an `i128`.
pub fn exit_payout(value: i128, penalty_percent: u32) -> (payout: Option<i128>)
    ensures
        payout == (if i128::MIN <= exit_payout_of(value as int, penalty_percent as int)
            <= i128::MAX {
            Some(exit_payout_of(value as int, penalty_percent as int) as i128)
        } else {
            None
        }),
{
    // Quotient and remainder toward zero, so that both carry the sign of `value`.
    let q: i128 = value / 100;
    let r: i128 = value % 100;
    let p: i128 = penalty_percent as i128;
    let keep: i128 = 100 - p;
    assert(-100 * 0x1_0000_0000 <= r * p <= 100 * 0x1_0000_0000) by (nonlinear_arith)
        requires
            -100 < r < 100,
            0 <= p < 0x1_0000_0000,
    ;
    let cut: i128 = (r * p).checked_div_euclid(100).unwrap();
    let rest: i128 = r - cut;
    proof {
        lemma_payout_parts(value as int, p as int, q as int, r as int);
    }
    match q.checked_mul(keep) {
        None => None,
        Some(base) => base.checked_add(rest),
    }
}

} // verus!

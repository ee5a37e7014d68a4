//! The Hull moving average, and the Hull average of an exponential average.
use vstd::prelude::*;
use crate::scalar::{Scalar, all_undefined, undefined_series, undefined_values};
use crate::series::{
    Candle, ValueAtTime, closes, stamped, values_of, paired_len, extract_close, extract_values,
    wrap_output, with_closes, lemma_closes_of_reclosed, lemma_values_of_stamped,
};
use crate::wma::{wma_series, wma_values};
use crate::ema::{ema_series, ema};

verus! {

/// Whether `r` is the whole number nearest to the square root of `n`, that
/// is whether `r - 1/2 < sqrt(n) < r + 1/2`. The square root of a whole
/// number never lies halfway between two whole numbers, so there is no tie
/// to break.
pub open spec fn is_rounded_sqrt(n: nat, r: nat) -> bool {
    &&& 4 * n < (2 * r + 1) * (2 * r + 1)
    &&& (r > 0 ==> (2 * r - 1) * (2 * r - 1) < 4 * n)
}

/// The whole number nearest to the square root of `n`.
pub open spec fn rounded_sqrt(n: nat) -> nat {
    choose|r: nat| is_rounded_sqrt(n, r)
}

/// At most one number is the rounded square root of `n`.
pub proof fn lemma_rounded_sqrt_unique(n: nat, a: nat, b: nat)
    requires
        is_rounded_sqrt(n, a),
        is_rounded_sqrt(n, b),
    ensures
        a == b,
{
    if a < b {
        assert((2 * a + 1) * (2 * a + 1) <= (2 * b - 1) * (2 * b - 1)) by (nonlinear_arith)
            requires
                0 <= 2 * a + 1 <= 2 * b - 1,
        ;
    } else if b < a {
        assert((2 * b + 1) * (2 * b + 1) <= (2 * a - 1) * (2 * a - 1)) by (nonlinear_arith)
            requires
                0 <= 2 * b + 1 <= 2 * a - 1,
        ;
    }
}

/// The whole number nearest to the square root of `n`, found by bisection.
pub fn round_sqrt(n: usize) -> (r: usize)
    ensures
        is_rounded_sqrt(n as nat, r as nat),
        r == rounded_sqrt(n as nat),
{
    if n == 0 {
        proof {
            assert((2 * 0 + 1) * (2 * 0 + 1) == 1) by (nonlinear_arith);
            assert(is_rounded_sqrt(0, 0));
            lemma_rounded_sqrt_unique(0, 0, rounded_sqrt(0));
        }
        return 0;
    }
    let m: u128 = n as u128;
    let mut lo: u128 = 1;
    let mut hi: u128 = 0x1_0000_0001;
    while hi - lo > 1
        invariant
            1 <= lo < hi <= 0x1_0000_0001,
            m == n,
            lo * (lo - 1) < m,
            hi * (hi - 1) >= m,
        decreases hi - lo,
    {
        let mid: u128 = lo + (hi - lo) / 2;
        assert(mid * (mid - 1) <= 0x1_0000_0001 * 0x1_0000_0001) by (nonlinear_arith)
            requires
                1 <= mid <= 0x1_0000_0001,
        ;
        if mid * (mid - 1) < m {
            lo = mid;
        } else {
            hi = mid;
        }
    }
    proof {
        let r = lo as int;
        assert(hi == lo + 1);
        assert(r * (r - 1) < m <= (r + 1) * r);
        assert((2 * r + 1) * (2 * r + 1) == 4 * ((r + 1) * r) + 1) by (nonlinear_arith);
        assert((2 * r - 1) * (2 * r - 1) == 4 * (r * (r - 1)) + 1) by (nonlinear_arith);
        assert(r <= m) by (nonlinear_arith)
            requires
                1 <= r,
                1 <= m,
                r * (r - 1) < m,
        ;
        assert(is_rounded_sqrt(n as nat, lo as nat));
        lemma_rounded_sqrt_unique(n as nat, lo as nat, rounded_sqrt(n as nat));
    }
    lo as usize
}

/// Twice the fast average less the slow one, position by position, as far as
/// both series reach.
pub open spec fn hull_difference<S: Scalar>(fast: Seq<S>, slow: Seq<S>) -> Seq<S> {
    Seq::new(
        paired_len(fast.len(), slow.len()),
        |i: int| S::from_count_spec(2).times_spec(fast[i]).minus_spec(slow[i]),
    )
}

/// The Hull moving average of a series: the weighted average, over the
/// rounded square root of `period`, of twice the weighted average over half
/// the period less the weighted average over the whole period. A period
/// under two has no half window, and the series is undefined.
pub open spec fn hma_series<S: Scalar>(values: Seq<S>, period: nat) -> Seq<S> {
    if period < 2 {
        undefined_series::<S>(values.len())
    } else {
        wma_series(
            hull_difference(wma_series(values, period / 2), wma_series(values, period)),
            rounded_sqrt(period),
        )
    }
}

/// Computes `2 * fast[i] - slow[i]` for each position that both series have.
pub fn hull_diff<S: Scalar>(fast: &[S], slow: &[S]) -> (out: Vec<S>)
    ensures
        out@ == hull_difference(fast@, slow@),
{
    let n = if fast.len() <= slow.len() {
        fast.len()
    } else {
        slow.len()
    };
    let two = S::from_count(2);
    let mut out: Vec<S> = Vec::new();
    let mut i: usize = 0;
    while i < n
        invariant
            i <= n,
            n == paired_len(fast@.len(), slow@.len()),
            two == S::from_count_spec(2),
            out@.len() == i,
            forall|j: int| 0 <= j < i ==> out@[j] == hull_difference(fast@, slow@)[j],
        decreases n - i,
    {
        out.push(two.times(fast[i]).minus(slow[i]));
        i += 1;
    }
    assert(out@ =~= hull_difference(fast@, slow@));
    out
}

/// The Hull moving average of the closing prices, one entry for each candle,
/// with the candle's time. With a period under two every value is undefined.
pub fn hma<S: Scalar>(candles: &[Candle<S>], period: usize) -> (out: Vec<ValueAtTime<S>>)
    ensures
        out@ == stamped(candles@, hma_series(closes(candles@), period as nat)),
        out@.len() == candles@.len(),
        period < 2 ==> all_undefined(values_of(out@)),
{
    if period < 2 {
        let blank = undefined_values::<S>(candles.len());
        proof {
            lemma_values_of_stamped(candles@, blank@);
        }
        return wrap_output(candles, blank);
    }
    let prices = extract_close(candles);
    let half = period / 2;
    let root = round_sqrt(period);
    let fast = wma_values(prices.as_slice(), half);
    let slow = wma_values(prices.as_slice(), period);
    let diff = hull_diff(fast.as_slice(), slow.as_slice());
    let hull = wma_values(diff.as_slice(), root);
    wrap_output(candles, hull)
}

/// The Hull moving average of the exponential moving average of the closing
/// prices, both over `period`. The exponential average takes the place of
/// the closes in a copy of the candles, and the Hull average is taken of
/// that copy.
pub fn ehma<S: Scalar>(candles: &[Candle<S>], period: usize) -> (out: Vec<ValueAtTime<S>>)
    ensures
        out@ == stamped(
            candles@,
            hma_series(ema_series(closes(candles@), period as nat), period as nat),
        ),
        out@.len() == candles@.len(),
        period < 2 ==> all_undefined(values_of(out@)),
{
    let averaged = ema(candles, period);
    let ema_vals = extract_values(averaged.as_slice());
    let temp = with_closes(candles, ema_vals.as_slice());
    let out = hma(temp.as_slice(), period);
    proof {
        let smooth = ema_series(closes(candles@), period as nat);
        lemma_values_of_stamped(candles@, smooth);
        lemma_closes_of_reclosed(candles@, smooth);
        assert(out@ =~= stamped(candles@, hma_series(smooth, period as nat)));
    }
    out
}

} // verus!

//! The weighted moving average: a trailing window in which the newest value
//! weighs most and the weights fall by one with each step back.
use vstd::prelude::*;
use crate::scalar::{Scalar, all_undefined};
use crate::series::{
    Candle, ValueAtTime, closes, stamped, values_of, extract_close, wrap_output,
    lemma_values_of_stamped,
};
use crate::sma::window_ends_at;

verus! {

/// The sum of the weights of one window: `1 + 2 + ... + period`.
pub open spec fn weight_total(period: nat) -> nat {
    period * (period + 1) / 2
}

/// The first `terms` terms of the weighted sum of the window that ends at
/// `i`, added up from the left, starting from the number zero:
/// `values[i] * period + values[i - 1] * (period - 1) + ...`.
pub open spec fn weighted_sum<S: Scalar>(values: Seq<S>, period: nat, i: int, terms: nat) -> S
    decreases terms,
{
    if terms == 0 {
        S::from_count_spec(0)
    } else {
        let back = terms - 1;
        weighted_sum(values, period, i, back as nat).plus_spec(
            values[i - back].times_spec(S::from_count_spec((period - back) as u128)),
        )
    }
}

/// The weighted moving average at position `i`: the weighted sum of the
/// `period` values that end at `i`, divided by the sum of the weights;
/// undefined while fewer than `period` values are there.
pub open spec fn wma_at<S: Scalar>(values: Seq<S>, period: nat, i: int) -> S {
    if window_ends_at(period, i) {
        weighted_sum(values, period, i, period).over_spec(
            S::from_count_spec(weight_total(period) as u128),
        )
    } else {
        S::undefined_spec()
    }
}

/// The weighted moving average of a whole series.
pub open spec fn wma_series<S: Scalar>(values: Seq<S>, period: nat) -> Seq<S> {
    Seq::new(values.len(), |i: int| wma_at(values, period, i))
}

/// With a period of zero, or one that exceeds the length of the series, the
/// weighted moving average is undefined at every position.
pub proof fn lemma_wma_without_window<S: Scalar>(values: Seq<S>, period: nat)
    requires
        period == 0 || values.len() < period,
    ensures
        all_undefined(wma_series(values, period)),
{
}

/// The sum of the weights of a window, computed without overflow.
pub fn weights<S: Scalar>(period: usize) -> (total: S)
    ensures
        total == S::from_count_spec(weight_total(period as nat) as u128),
{
    let p: u128 = period as u128;
    assert(p * (p + 1) <= 0xffff_ffff_ffff_ffff * 0x1_0000_0000_0000_0000) by (nonlinear_arith)
        requires
            p <= 0xffff_ffff_ffff_ffff,
    ;
    S::from_count(p * (p + 1) / 2)
}

/// The weighted moving average of any series of numbers.
///
/// The output is as long as the input. From position `period - 1` on the
/// value is the weighted mean of the last `period` values; before that, and
/// everywhere if `period` is zero or exceeds the length, it is undefined.
pub fn wma_values<S: Scalar>(values: &[S], period: usize) -> (out: Vec<S>)
    ensures
        out@ == wma_series(values@, period as nat),
        out@.len() == values@.len(),
        period == 0 || values@.len() < period ==> all_undefined(out@),
{
    let n = values.len();
    let total: S = weights(period);
    let mut out: Vec<S> = Vec::new();
    let mut i: usize = 0;
    while i < n
        invariant
            i <= n,
            n == values@.len(),
            total == S::from_count_spec(weight_total(period as nat) as u128),
            out@.len() == i,
            forall|k: int| 0 <= k < i ==> out@[k] == wma_at(values@, period as nat, k),
        decreases n - i,
    {
        if period >= 1 && i + 1 >= period {
            let mut sum = S::from_count(0);
            let mut j: usize = 0;
            while j < period
                invariant
                    j <= period <= i + 1,
                    i < n,
                    n == values@.len(),
                    sum == weighted_sum(values@, period as nat, i as int, j as nat),
                decreases period - j,
            {
                sum = sum.plus(values[i - j].times(S::from_count((period - j) as u128)));
                j += 1;
            }
            out.push(sum.over(total));
        } else {
            out.push(S::undefined());
        }
        i += 1;
    }
    assert(out@ =~= wma_series(values@, period as nat));
    proof {
        if period == 0 || values@.len() < period {
            lemma_wma_without_window(values@, period as nat);
        }
    }
    out
}

/// The weighted moving average of the closing prices, one entry for each
/// candle, with the candle's time.
pub fn wma<S: Scalar>(candles: &[Candle<S>], period: usize) -> (out: Vec<ValueAtTime<S>>)
    ensures
        out@ == stamped(candles@, wma_series(closes(candles@), period as nat)),
        out@.len() == candles@.len(),
        period == 0 || candles@.len() < period ==> all_undefined(values_of(out@)),
{
    let prices = extract_close(candles);
    let averaged = wma_values(prices.as_slice(), period);
    proof {
        lemma_values_of_stamped(candles@, averaged@);
    }
    wrap_output(candles, averaged)
}

} // verus!

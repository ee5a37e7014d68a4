//! The simple moving average: the mean of a trailing window of closes.
use vstd::prelude::*;
use crate::scalar::{Scalar, all_undefined};
use crate::series::{
    Candle, ValueAtTime, closes, stamped, values_of, extract_close, wrap_output,
    lemma_values_of_stamped,
};

verus! {

/// The sum of `values[lo..hi]`, added up from the left. Meant for `lo < hi`.
pub open spec fn window_sum<S: Scalar>(values: Seq<S>, lo: int, hi: int) -> S
    decreases hi - lo,
{
    if hi - lo <= 1 {
        values[lo]
    } else {
        window_sum(values, lo, hi - 1).plus_spec(values[hi - 1])
    }
}

/// The mean of `values[lo..hi]`.
pub open spec fn window_mean<S: Scalar>(values: Seq<S>, lo: int, hi: int) -> S {
    window_sum(values, lo, hi).over_spec(S::from_count_spec((hi - lo) as u128))
}

/// Whether a window of `period` values ends at position `i`.
pub open spec fn window_ends_at(period: nat, i: int) -> bool {
    period >= 1 && i + 1 >= period
}

/// The simple moving average at position `i`: the mean of the `period`
/// values that end at `i`, undefined while fewer than `period` are there.
pub open spec fn sma_at<S: Scalar>(values: Seq<S>, period: nat, i: int) -> S {
    if window_ends_at(period, i) {
        window_mean(values, i + 1 - period, i + 1)
    } else {
        S::undefined_spec()
    }
}

/// The simple moving average of a whole series.
pub open spec fn sma_series<S: Scalar>(values: Seq<S>, period: nat) -> Seq<S> {
    Seq::new(values.len(), |i: int| sma_at(values, period, i))
}

/// With a period of zero, or one that exceeds the length of the series, the
/// simple moving average is undefined at every position.
pub proof fn lemma_sma_without_window<S: Scalar>(values: Seq<S>, period: nat)
    requires
        period == 0 || values.len() < period,
    ensures
        all_undefined(sma_series(values, period)),
{
}

/// Adds up `values[lo..hi]` from the left.
pub fn sum_window<S: Scalar>(values: &[S], lo: usize, hi: usize) -> (sum: S)
    requires
        lo < hi <= values.len(),
    ensures
        sum == window_sum(values@, lo as int, hi as int),
{
    let mut sum = values[lo];
    let mut j: usize = lo + 1;
    while j < hi
        invariant
            lo < j <= hi <= values.len(),
            sum == window_sum(values@, lo as int, j as int),
        decreases hi - j,
    {
        sum = sum.plus(values[j]);
        j += 1;
    }
    sum
}

/// The simple moving average of the closing prices.
///
/// The output has one entry for each candle, with the candle's time. From
/// position `period - 1` on the value is the mean of the last `period`
/// closes; before that, and everywhere if `period` is zero or exceeds the
/// number of candles, it is undefined.
pub fn sma<S: Scalar>(candles: &[Candle<S>], period: usize) -> (out: Vec<ValueAtTime<S>>)
    ensures
        out@ == stamped(candles@, sma_series(closes(candles@), period as nat)),
        out@.len() == candles@.len(),
        period == 0 || candles@.len() < period ==> all_undefined(values_of(out@)),
{
    let prices = extract_close(candles);
    let n = prices.len();
    let mut out: Vec<S> = Vec::new();
    let mut i: usize = 0;
    while i < n
        invariant
            i <= n,
            n == prices@.len(),
            out@.len() == i,
            forall|j: int| 0 <= j < i ==> out@[j] == sma_at(prices@, period as nat, j),
        decreases n - i,
    {
        if period >= 1 && i + 1 >= period {
            let sum = sum_window(prices.as_slice(), i + 1 - period, i + 1);
            out.push(sum.over(S::from_count(period as u128)));
        } else {
            out.push(S::undefined());
        }
        i += 1;
    }
    assert(out@ =~= sma_series(prices@, period as nat));
    proof {
        lemma_values_of_stamped(candles@, out@);
        if period == 0 || candles@.len() < period {
            lemma_sma_without_window(prices@, period as nat);
        }
    }
    wrap_output(candles, out)
}

} // verus!

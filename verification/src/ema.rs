//! The exponential moving average, seeded with the mean of the first window.
use vstd::prelude::*;
use crate::scalar::{Scalar, all_undefined, undefined_values};
use crate::series::{
    Candle, ValueAtTime, closes, stamped, values_of, extract_close, wrap_output,
    lemma_values_of_stamped,
};
use crate::sma::{window_ends_at, window_mean, sum_window};

verus! {

/// The smoothing factor `2 / (period + 1)`.
pub open spec fn smoothing<S: Scalar>(period: nat) -> S {
    S::from_count_spec(2).over_spec(
        S::from_count_spec(period as u128).plus_spec(S::from_count_spec(1)),
    )
}

/// One step of the smoothing: `value * k + previous * (1 - k)`.
pub open spec fn smoothed<S: Scalar>(value: S, previous: S, k: S) -> S {
    value.times_spec(k).plus_spec(previous.times_spec(S::from_count_spec(1).minus_spec(k)))
}

/// The exponential moving average at position `i`. It is undefined before
/// position `period - 1`, there it is the mean of the first `period` values,
/// and from then on each value is smoothed into the one before.
pub open spec fn ema_at<S: Scalar>(values: Seq<S>, period: nat, i: int) -> S
    decreases i,
{
    if !window_ends_at(period, i) {
        S::undefined_spec()
    } else if i + 1 == period {
        window_mean(values, 0, period as int)
    } else {
        smoothed(values[i], ema_at(values, period, i - 1), smoothing::<S>(period))
    }
}

/// The exponential moving average of a whole series.
pub open spec fn ema_series<S: Scalar>(values: Seq<S>, period: nat) -> Seq<S> {
    Seq::new(values.len(), |i: int| ema_at(values, period, i))
}

/// With a period of zero, or one that exceeds the length of the series, the
/// exponential moving average is undefined at every position.
pub proof fn lemma_ema_without_window<S: Scalar>(values: Seq<S>, period: nat)
    requires
        period == 0 || values.len() < period,
    ensures
        all_undefined(ema_series(values, period)),
{
}

/// The first defined value of the exponential moving average, at position
/// `period - 1`, is the mean of the first `period` values.
pub proof fn lemma_ema_seed<S: Scalar>(values: Seq<S>, period: nat)
    requires
        1 <= period <= values.len(),
    ensures
        ema_series(values, period)[period - 1] == window_mean(values, 0, period as int),
{
}

/// The exponential moving average of any series of numbers.
///
/// The output is as long as the input. It is undefined everywhere if
/// `period` is zero or exceeds the length.
pub fn ema_values<S: Scalar>(values: &[S], period: usize) -> (out: Vec<S>)
    ensures
        out@ == ema_series(values@, period as nat),
        out@.len() == values@.len(),
        period == 0 || values@.len() < period ==> all_undefined(out@),
        1 <= period <= values@.len() ==> out@[period - 1] == window_mean(
            values@,
            0,
            period as int,
        ),
{
    let n = values.len();
    if period == 0 || n == 0 {
        let out = undefined_values::<S>(n);
        assert(out@ =~= ema_series(values@, period as nat));
        proof {
            lemma_ema_without_window(values@, period as nat);
        }
        return out;
    }
    let k = S::from_count(2).over(S::from_count(period as u128).plus(S::from_count(1)));
    let rest = S::from_count(1).minus(k);
    let mut out: Vec<S> = Vec::new();
    let mut prev = values[0];
    let mut i: usize = 0;
    while i < n
        invariant
            i <= n,
            n == values@.len(),
            period >= 1,
            k == smoothing::<S>(period as nat),
            rest == S::from_count_spec(1).minus_spec(k),
            out@.len() == i,
            forall|j: int| 0 <= j < i ==> out@[j] == ema_at(values@, period as nat, j),
            i >= period ==> prev == ema_at(values@, period as nat, i - 1),
        decreases n - i,
    {
        if i + 1 < period {
            out.push(S::undefined());
        } else if i + 1 == period {
            let seed = sum_window(values, 0, period).over(S::from_count(period as u128));
            out.push(seed);
            prev = seed;
        } else {
            prev = values[i].times(k).plus(prev.times(rest));
            out.push(prev);
        }
        i += 1;
    }
    assert(out@ =~= ema_series(values@, period as nat));
    proof {
        if values@.len() < period {
            lemma_ema_without_window(values@, period as nat);
        } else {
            lemma_ema_seed(values@, period as nat);
        }
    }
    out
}

/// The exponential moving average of the closing prices, one entry for each
/// candle, with the candle's time.
///
/// The value at position `period - 1` is the mean of the first `period`
/// closes. After it, `value[i] = close[i] * k + value[i - 1] * (1 - k)` with
/// `k = 2 / (period + 1)`. Before it the value is undefined, and so is the
/// whole output if `period` is zero or exceeds the number of candles.
pub fn ema<S: Scalar>(candles: &[Candle<S>], period: usize) -> (out: Vec<ValueAtTime<S>>)
    ensures
        out@ == stamped(candles@, ema_series(closes(candles@), period as nat)),
        out@.len() == candles@.len(),
        period == 0 || candles@.len() < period ==> all_undefined(values_of(out@)),
        1 <= period <= candles@.len() ==> out@[period - 1].value == window_mean(
            closes(candles@),
            0,
            period as int,
        ),
{
    let prices = extract_close(candles);
    let averaged = ema_values(prices.as_slice(), period);
    proof {
        lemma_values_of_stamped(candles@, averaged@);
    }
    wrap_output(candles, averaged)
}

} // verus!
